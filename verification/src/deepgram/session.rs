//! The per-utterance session lifecycle.
//!
//! At most one streaming session is ever live: a new one may only be
//! opened once the previous one's teardown has been issued. The manager
//! numbers sessions from zero and keeps a ghost log of lifecycle events;
//! well-formedness pins the log to the strictly alternating shape
//! `Started(0), Ended(0), Started(1), Ended(1), ...`, which is what rules
//! concurrent sessions out.

use vstd::prelude::*;

verus! {

/// A session-lifecycle event, in the order the manager issued it.
#[derive(Clone, Copy, Debug, PartialEq, Eq, Structural)]
pub enum SessionEvent {
    /// Session with this number was created.
    Started(u64),
    /// Teardown of the session with this number was issued.
    Ended(u64),
}

/// Owns the lifecycle of the at-most-one live streaming session.
///
/// The connection, queue and tasks themselves live with the caller; the
/// manager decides when one may exist.
pub struct TranscriptionSessionManager {
    /// Whether a session is currently live.
    pub live: bool,
    /// How many sessions have ever been started; the live one, when there
    /// is one, is number `started - 1`.
    pub started: u64,
    /// Every lifecycle event ever issued, oldest first.
    pub events: Ghost<Seq<SessionEvent>>,
}

impl TranscriptionSessionManager {
    /// The event log strictly alternates `Started(k)` and `Ended(k)`, in
    /// session order, and ends open exactly when a session is live.
    pub open spec fn wf(self) -> bool {
        &&& self.live ==> self.started >= 1
        &&& self.events@.len() == if self.live {
            2 * self.started - 1
        } else {
            2 * self.started
        }
        &&& forall|k: int|
            0 <= k && 2 * k < self.events@.len() ==> #[trigger] self.events@[2 * k]
                == SessionEvent::Started(k as u64)
        &&& forall|k: int|
            0 <= k && 2 * k + 1 < self.events@.len() ==> #[trigger] self.events@[2 * k + 1]
                == SessionEvent::Ended(k as u64)
    }

    /// A fresh manager: no session live, none ever started.
    pub fn new() -> (r: TranscriptionSessionManager)
        ensures
            r.wf(),
            !r.live,
            r.started == 0,
            r.events@ == Seq::<SessionEvent>::empty(),
    {
        TranscriptionSessionManager { live: false, started: 0, events: Ghost(Seq::empty()) }
    }

    /// Opens the next session and returns its number. Only allowed once
    /// the previous session's teardown has been issued.
    pub fn begin_session(&mut self) -> (id: u64)
        requires
            old(self).wf(),
            !old(self).live,
            old(self).started < u64::MAX,
        ensures
            final(self).wf(),
            final(self).live,
            id == old(self).started,
            final(self).started == old(self).started + 1,
            final(self).events@ == old(self).events@.push(SessionEvent::Started(id)),
    {
        let id = self.started;
        proof {
            self.events@ = self.events@.push(SessionEvent::Started(id));
        }
        self.started = self.started + 1;
        self.live = true;
        id
    }

    /// Issues teardown of the live session.
    pub fn end_session(&mut self)
        requires
            old(self).wf(),
            old(self).live,
        ensures
            final(self).wf(),
            !final(self).live,
            final(self).started == old(self).started,
            final(self).events@ == old(self).events@.push(
                SessionEvent::Ended((old(self).started - 1) as u64),
            ),
    {
        let ended = self.started - 1;
        proof {
            self.events@ = self.events@.push(SessionEvent::Ended(ended));
        }
        self.live = false;
    }
}

/// Law: sessions never overlap. Wherever two `Started` events stand in
/// the log, some `Ended` stands strictly between them: a session's
/// creation is always preceded by the previous session's teardown.
pub proof fn lemma_no_concurrent_sessions(m: TranscriptionSessionManager, i: int, j: int)
    requires
        m.wf(),
        0 <= i < j < m.events@.len(),
        m.events@[i] is Started,
        m.events@[j] is Started,
    ensures
        exists|e: int| i < e < j && m.events@[e] is Ended,
{
    let a = i / 2;
    let b = j / 2;
    assert(i == 2 * a) by {
        if i != 2 * a {
            assert(i == 2 * a + 1);
            assert(m.events@[2 * a + 1] == SessionEvent::Ended(a as u64));
        }
    }
    assert(j == 2 * b) by {
        if j != 2 * b {
            assert(j == 2 * b + 1);
            assert(m.events@[2 * b + 1] == SessionEvent::Ended(b as u64));
        }
    }
    assert(m.events@[2 * a + 1] == SessionEvent::Ended(a as u64));
    assert(i < 2 * a + 1 < j && m.events@[2 * a + 1] is Ended);
}

/// Law: session `k`'s creation comes right after session `k - 1`'s
/// teardown in event order.
pub proof fn lemma_sessions_in_order(m: TranscriptionSessionManager, k: int)
    requires
        m.wf(),
        1 <= k,
        2 * k < m.events@.len(),
    ensures
        m.events@[2 * k] == SessionEvent::Started(k as u64),
        m.events@[2 * k - 1] == SessionEvent::Ended((k - 1) as u64),
{
    assert(m.events@[2 * (k - 1) + 1] == SessionEvent::Ended((k - 1) as u64));
}

} // verus!
