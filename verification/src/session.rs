//! The heartbeat-driven session state machine.
//!
//! The remote service only reports the single latest heartbeat it has
//! seen; a local notion of "actively coding" has to be reconstructed from
//! the recency and identity of that sample. Each poll feeds the latest
//! reading through `apply_poll`, which commits the next session state and
//! says what the presence broadcaster should be told.

use vstd::prelude::*;
use vstd::string::StringExecFns;

use crate::errors::ClientError;
use crate::presence::DiscordActivity;
use crate::strutil::{clone_opt_string, spec_trim, substr_eq, trim_str};

verus! {

/// A heartbeat younger than this many seconds counts as recent; an older
/// one means the user has stopped and only a stale sample remains.
pub const SESSION_RECENCY_SECS: i64 = 120;

/// The latest activity sample the remote service has seen. Read-only
/// input to the state machine.
#[derive(Debug)]
pub struct Heartbeat {
    pub id: u64,
    pub project: Option<String>,
    pub editor: Option<String>,
    pub language: Option<String>,
    pub entity: Option<String>,
    pub timestamp: i64,
}

/// The locally inferred coding session. Ephemeral: never persisted.
#[derive(Debug)]
pub struct SessionState {
    pub is_active: bool,
    pub start_time: Option<i64>,
    pub last_heartbeat_id: Option<u64>,
    pub heartbeat_count: u32,
    pub project: Option<String>,
    pub editor: Option<String>,
    pub language: Option<String>,
    pub entity: Option<String>,
}

/// What the presence broadcaster should be told after a poll. Presence is
/// best-effort: performing the action may fail without affecting the
/// session state, which has already been committed.
#[derive(Debug)]
pub enum PresenceAction {
    /// Leave the displayed activity as it is.
    Keep,
    /// Clear the displayed activity: the session ended.
    Clear,
    /// Display this activity: the session started or continued.
    Publish(DiscordActivity),
}

/// The inactive session: every optional field empty, the count zero.
pub open spec fn spec_empty_session() -> SessionState {
    SessionState {
        is_active: false,
        start_time: None,
        last_heartbeat_id: None,
        heartbeat_count: 0,
        project: None,
        editor: None,
        language: None,
        entity: None,
    }
}

/// The session just started from heartbeat `h`.
pub open spec fn spec_started_session(h: Heartbeat) -> SessionState {
    SessionState {
        is_active: true,
        start_time: Some(h.timestamp),
        last_heartbeat_id: Some(h.id),
        heartbeat_count: 1,
        project: h.project,
        editor: h.editor,
        language: h.language,
        entity: h.entity,
    }
}

/// The session `s` continued by heartbeat `h`: the start time is kept,
/// the count grows, the descriptive fields are refreshed.
pub open spec fn spec_continued_session(s: SessionState, h: Heartbeat) -> SessionState {
    SessionState {
        is_active: true,
        start_time: s.start_time,
        last_heartbeat_id: Some(h.id),
        heartbeat_count: (s.heartbeat_count + 1) as u32,
        project: h.project,
        editor: h.editor,
        language: h.language,
        entity: h.entity,
    }
}

/// Internal consistency of a session value: an inactive session holds
/// nothing, an active one knows when it started and what it last saw.
pub open spec fn session_wf(s: SessionState) -> bool {
    &&& !s.is_active ==> s == spec_empty_session()
    &&& s.is_active ==> s.start_time is Some && s.last_heartbeat_id is Some
        && s.heartbeat_count >= 1
}

/// `h` was emitted within the recency threshold as of `now`.
pub open spec fn spec_recent(h: Heartbeat, now: i64) -> bool {
    now - h.timestamp < SESSION_RECENCY_SECS
}

/// `h` is the same sample the session already accounted for.
pub open spec fn spec_duplicate(s: SessionState, h: Heartbeat) -> bool {
    s.last_heartbeat_id == Some(h.id)
}

/// The activity `a` describes heartbeat `h` with session start `start`:
/// a missing project name is replaced by a placeholder, everything else
/// is carried over.
pub open spec fn activity_matches(a: DiscordActivity, h: Heartbeat, start: i64) -> bool {
    &&& a.project_name@ == if h.project is Some {
        h.project->0@
    } else {
        "Unknown Project"@
    }
    &&& a.language == h.language
    &&& a.editor == h.editor
    &&& a.entity == h.entity
    &&& a.start_time == Some(start)
}

/// The full transition relation of one poll: given the session before the
/// poll, the latest reading and the time, this says what the session
/// after the poll and the presence action must be.
pub open spec fn poll_post(
    old_s: SessionState,
    hb: Option<Heartbeat>,
    now: i64,
    new_s: SessionState,
    action: PresenceAction,
) -> bool {
    if hb is None {
        if old_s.is_active {
            new_s == spec_empty_session() && action is Clear
        } else {
            new_s == old_s && action is Keep
        }
    } else {
        let h = hb->0;
        let recent = spec_recent(h, now);
        let dup = spec_duplicate(old_s, h);
        if dup && recent {
            new_s == old_s && action is Keep
        } else if dup && !recent {
            new_s == spec_empty_session() && action is Clear
        } else if recent && !old_s.is_active {
            &&& new_s == spec_started_session(h)
            &&& action matches PresenceAction::Publish(a) && activity_matches(
                a,
                h,
                h.timestamp,
            )
        } else if recent && old_s.is_active {
            &&& new_s == spec_continued_session(old_s, h)
            &&& action matches PresenceAction::Publish(a) && activity_matches(
                a,
                h,
                old_s.start_time->0,
            )
        } else if old_s.is_active {
            new_s == spec_empty_session() && action is Clear
        } else {
            new_s == old_s && action is Keep
        }
    }
}

/// Continuation keeps the origin: when an active session sees a new
/// heartbeat that is still recent, the poll refreshes the descriptive
/// fields and grows the count by one, while the start time and the
/// start time pushed to presence both remain the session's original.
pub proof fn lemma_continuation_keeps_start(
    s: SessionState,
    h: Heartbeat,
    now: i64,
    s2: SessionState,
    action: PresenceAction,
)
    requires
        session_wf(s),
        s.is_active,
        s.heartbeat_count < u32::MAX,
        s.last_heartbeat_id != Some(h.id),
        spec_recent(h, now),
        poll_post(s, Some(h), now, s2, action),
    ensures
        s2.start_time == s.start_time,
        s2.heartbeat_count == s.heartbeat_count + 1,
        s2.project == h.project,
        s2.editor == h.editor,
        s2.language == h.language,
        s2.entity == h.entity,
        action matches PresenceAction::Publish(a) && a.start_time == Some(s.start_time->0),
{
}

/// The latest-heartbeat endpoint reports "no heartbeat yet" as a body
/// that is `null` or blank once trimmed.
pub fn is_null_heartbeat_body(body: &str) -> (r: bool)
    ensures
        r == (spec_trim(body@) == "null"@ || spec_trim(body@).len() == 0),
{
    let t = trim_str(body);
    substr_eq(t.as_str(), "null") || t.as_str().is_empty()
}

/// The activity to display for heartbeat `h` in a session started at
/// `start`.
pub fn activity_from_heartbeat(h: &Heartbeat, start: i64) -> (a: DiscordActivity)
    ensures
        activity_matches(a, *h, start),
{
    let project_name = match &h.project {
        Some(p) => p.clone(),
        None => String::from_str("Unknown Project"),
    };
    DiscordActivity {
        project_name,
        language: clone_opt_string(&h.language),
        editor: clone_opt_string(&h.editor),
        entity: clone_opt_string(&h.entity),
        start_time: Some(start),
    }
}

impl SessionState {
    /// The inactive session every process starts with.
    pub fn new() -> (s: Self)
        ensures
            s == spec_empty_session(),
            session_wf(s),
    {
        SessionState {
            is_active: false,
            start_time: None,
            last_heartbeat_id: None,
            heartbeat_count: 0,
            project: None,
            editor: None,
            language: None,
            entity: None,
        }
    }

    fn reset(&mut self)
        ensures
            *final(self) == spec_empty_session(),
    {
        self.is_active = false;
        self.start_time = None;
        self.last_heartbeat_id = None;
        self.heartbeat_count = 0;
        self.project = None;
        self.editor = None;
        self.language = None;
        self.entity = None;
    }

    /// How long the session has been running as of `now`: zero when no
    /// session is active.
    pub fn session_duration_at(&self, now: i64) -> (d: i64)
        requires
            now >= 0,
            self.start_time matches Some(t) ==> t >= 0,
        ensures
            d == if self.is_active && self.start_time is Some {
                now - self.start_time->0
            } else {
                0
            },
    {
        if self.is_active {
            match self.start_time {
                Some(t) => now - t,
                None => 0,
            }
        } else {
            0
        }
    }

    /// Feed one polled reading through the state machine.
    ///
    /// Authentication is re-checked here, at commit time, not only when
    /// the poll was issued: a poll racing a logout must not resurrect a
    /// session, so a poll without authentication changes nothing.
    ///
    /// On success the returned action tells the caller what to forward to
    /// the presence broadcaster; a failure to do so is the caller's to
    /// log and does not bear on the committed state.
    pub fn apply_poll(&mut self, authenticated: bool, hb: &Option<Heartbeat>, now: i64) -> (r:
        Result<PresenceAction, ClientError>)
        requires
            session_wf(*old(self)),
            old(self).heartbeat_count < u32::MAX,
            now >= 0,
            (*hb) is Some ==> (*hb)->0.timestamp >= 0,
        ensures
            session_wf(*final(self)),
            !authenticated ==> (r matches Err(e) && e is AuthenticationRequired && *final(self)
                == *old(self)),
            authenticated ==> (r matches Ok(action) && poll_post(
                *old(self),
                *hb,
                now,
                *final(self),
                action,
            )),
    {
        if !authenticated {
            return Err(ClientError::AuthenticationRequired);
        }
        match hb {
            None => {
                if self.is_active {
                    self.reset();
                    Ok(PresenceAction::Clear)
                } else {
                    Ok(PresenceAction::Keep)
                }
            },
            Some(h) => {
                let age = now - h.timestamp;
                let is_recent = age < SESSION_RECENCY_SECS;
                let is_duplicate = match self.last_heartbeat_id {
                    Some(id) => id == h.id,
                    None => false,
                };
                if is_duplicate && is_recent {
                    Ok(PresenceAction::Keep)
                } else if is_duplicate {
                    self.reset();
                    Ok(PresenceAction::Clear)
                } else if is_recent && !self.is_active {
                    self.is_active = true;
                    self.start_time = Some(h.timestamp);
                    self.last_heartbeat_id = Some(h.id);
                    self.heartbeat_count = 1;
                    self.project = clone_opt_string(&h.project);
                    self.editor = clone_opt_string(&h.editor);
                    self.language = clone_opt_string(&h.language);
                    self.entity = clone_opt_string(&h.entity);
                    Ok(PresenceAction::Publish(activity_from_heartbeat(h, h.timestamp)))
                } else if is_recent {
                    let start = match self.start_time {
                        Some(t) => t,
                        None => h.timestamp,
                    };
                    self.last_heartbeat_id = Some(h.id);
                    self.heartbeat_count = self.heartbeat_count + 1;
                    self.project = clone_opt_string(&h.project);
                    self.editor = clone_opt_string(&h.editor);
                    self.language = clone_opt_string(&h.language);
                    self.entity = clone_opt_string(&h.entity);
                    Ok(PresenceAction::Publish(activity_from_heartbeat(h, start)))
                } else if self.is_active {
                    self.reset();
                    Ok(PresenceAction::Clear)
                } else {
                    Ok(PresenceAction::Keep)
                }
            },
        }
    }
}

} // verus!
