//! Data carried to the rich-presence broadcaster.
//!
//! The broadcaster itself (an IPC connection to a chat client) is an
//! external collaborator; this module holds the values handed to it and
//! the bookkeeping of its connection state.

use vstd::prelude::*;
use vstd::string::StringExecFns;

use crate::strutil::{join_strings, lemma_split_char_len, spec_join, spec_split_char, split_char};

verus! {

/// What the broadcaster should display while a session is active.
#[derive(Debug)]
pub struct DiscordActivity {
    pub project_name: String,
    pub language: Option<String>,
    pub editor: Option<String>,
    pub entity: Option<String>,
    pub start_time: Option<i64>,
}

/// Bookkeeping of the broadcaster connection.
#[derive(Debug)]
pub struct DiscordRpcState {
    pub is_connected: bool,
    pub client_id: Option<String>,
    pub current_activity: Option<DiscordActivity>,
}

impl DiscordRpcState {
    /// The state before any connection was made.
    pub fn new() -> (s: Self)
        ensures
            !s.is_connected,
            s.client_id is None,
            s.current_activity is None,
    {
        DiscordRpcState { is_connected: false, client_id: None, current_activity: None }
    }

    /// Record a successful connection under `client_id`.
    pub fn on_connected(&mut self, client_id: String)
        ensures
            final(self).is_connected,
            final(self).client_id == Some(client_id),
            final(self).current_activity == old(self).current_activity,
    {
        self.is_connected = true;
        self.client_id = Some(client_id);
    }

    /// Record a disconnect: nothing is connected or displayed any more.
    pub fn on_disconnected(&mut self)
        ensures
            !final(self).is_connected,
            final(self).client_id is None,
            final(self).current_activity is None,
    {
        self.is_connected = false;
        self.client_id = None;
        self.current_activity = None;
    }

    /// Record that `activity` is now displayed.
    pub fn on_activity_set(&mut self, activity: DiscordActivity)
        ensures
            final(self).current_activity == Some(activity),
            final(self).is_connected == old(self).is_connected,
            final(self).client_id == old(self).client_id,
    {
        self.current_activity = Some(activity);
    }

    /// Record that the displayed activity was cleared.
    pub fn on_activity_cleared(&mut self)
        ensures
            final(self).current_activity is None,
            final(self).is_connected == old(self).is_connected,
            final(self).client_id == old(self).client_id,
    {
        self.current_activity = None;
    }
}

/// The file name in an entity path: what follows the last `/`.
pub open spec fn spec_basename(entity: Seq<char>) -> Seq<char> {
    spec_split_char(entity, '/').last()
}

/// Extract the file name from an entity path.
pub fn basename(entity: &str) -> (r: String)
    ensures
        r@ == spec_basename(entity@),
{
    let parts = split_char(entity, '/');
    proof {
        lemma_split_char_len(entity@, '/');
        assert(parts@.map_values(|p: String| p@).len() == parts@.len());
    }
    let last = parts.len() - 1;
    proof {
        assert(parts@.map_values(|p: String| p@)[last as int] == parts@[last as int]@);
    }
    parts[last].clone()
}

/// The detail lines an activity displays, in order: language, editor,
/// and the file name of the entity, each labelled.
pub open spec fn spec_details_parts(a: DiscordActivity) -> Seq<Seq<char>> {
    (if a.language is Some {
        seq!["Language: "@ + a.language->0@]
    } else {
        Seq::<Seq<char>>::empty()
    }) + (if a.editor is Some {
        seq!["Editor: "@ + a.editor->0@]
    } else {
        Seq::<Seq<char>>::empty()
    }) + (if a.entity is Some {
        seq!["File: "@ + spec_basename(a.entity->0@)]
    } else {
        Seq::<Seq<char>>::empty()
    })
}

/// The one-line detail text of an activity: its parts joined with a
/// bullet, or nothing when there is nothing to say.
pub open spec fn spec_activity_details(a: DiscordActivity) -> Option<Seq<char>> {
    let parts = spec_details_parts(a);
    if parts.len() == 0 {
        None
    } else {
        Some(spec_join(parts, " \u{2022} "@))
    }
}

/// Render the detail line of an activity.
pub fn activity_details(a: &DiscordActivity) -> (r: Option<String>)
    ensures
        (r is Some) == (spec_activity_details(*a) is Some),
        r matches Some(d) ==> Some(d@) == spec_activity_details(*a),
{
    let mut parts: Vec<String> = Vec::new();
    match &a.language {
        Some(l) => {
            let mut s = String::from_str("Language: ");
            s.append(l.as_str());
            parts.push(s);
        },
        None => {},
    }
    match &a.editor {
        Some(e) => {
            let mut s = String::from_str("Editor: ");
            s.append(e.as_str());
            parts.push(s);
        },
        None => {},
    }
    match &a.entity {
        Some(en) => {
            let mut s = String::from_str("File: ");
            let name = basename(en.as_str());
            s.append(name.as_str());
            parts.push(s);
        },
        None => {},
    }
    proof {
        assert(parts@.map_values(|p: String| p@) =~= spec_details_parts(*a));
    }
    if parts.len() == 0 {
        None
    } else {
        Some(join_strings(&parts, " \u{2022} "))
    }
}

} // verus!
