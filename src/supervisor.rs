use vstd::prelude::*;

use crate::relay::{LogRecord, Severity};

verus! {

/// The slot that holds the live worker handle for one application run.
///
/// Once the handle has been taken for termination the slot stays empty: a
/// handle stored afterwards is handed back, never kept.
pub struct Supervisor<H> {
    slot: Option<H>,
    closed: bool,
}

impl<H> Supervisor<H> {
    /// The handle in the slot.
    pub closed spec fn held(&self) -> Option<H> {
        self.slot
    }

    /// Termination has been asked for.
    pub closed spec fn is_closed(&self) -> bool {
        self.closed
    }

    /// A closed supervisor holds no handle.
    pub closed spec fn wf(&self) -> bool {
        self.closed ==> self.slot is None
    }

    /// The state after `terminate`.
    pub closed spec fn after_terminate(&self) -> Supervisor<H> {
        Supervisor { slot: None, closed: true }
    }

    /// The state after `store(h)`, and what `store` returns.
    pub closed spec fn after_store(&self, h: H) -> (Supervisor<H>, Option<H>) {
        if self.closed {
            (*self, Some(h))
        } else {
            (Supervisor { slot: Some(h), closed: false }, self.slot)
        }
    }

    pub fn new() -> (r: Supervisor<H>)
        ensures
            r.wf(),
            r.held() is None,
            !r.is_closed(),
    {
        Supervisor { slot: None, closed: false }
    }

    /// Puts the handle in the slot. Before termination it replaces what was
    /// there, which is returned; after termination the slot stays empty and
    /// the handle itself is returned.
    pub fn store(&mut self, h: H) -> (r: Option<H>)
        requires
            old(self).wf(),
        ensures
            final(self).wf(),
            final(self).is_closed() == old(self).is_closed(),
            old(self).is_closed() ==> r == Some(h) && final(self).held() is None,
            !old(self).is_closed() ==> r == old(self).held() && final(self).held() == Some(h),
            (*final(self), r) == old(self).after_store(h),
    {
        if self.closed {
            Some(h)
        } else {
            let prior = self.slot.take();
            self.slot = Some(h);
            prior
        }
    }

    /// Takes the handle out of the slot for killing and closes the slot. It
    /// returns the handle the first time one is there, and nothing on every
    /// later call or when none was stored yet.
    pub fn terminate(&mut self) -> (r: Option<H>)
        requires
            old(self).wf(),
        ensures
            r == old(self).held(),
            *final(self) == old(self).after_terminate(),
            final(self).wf(),
            final(self).is_closed(),
            final(self).held() is None,
    {
        self.closed = true;
        self.slot.take()
    }
}

/// How many handles `n` successive calls of `terminate`, starting from `s`,
/// hand out for killing.
pub open spec fn handles_given<H>(s: Supervisor<H>, n: nat) -> nat
    decreases n,
{
    if n == 0 {
        0
    } else {
        (if s.held() is Some { 1nat } else { 0nat }) + handles_given(s.after_terminate(), (n - 1) as nat)
    }
}

proof fn lemma_closed_gives_nothing<H>(s: Supervisor<H>, n: nat)
    requires
        s.held() is None,
        s.is_closed(),
    ensures
        handles_given(s, n) == 0,
    decreases n,
{
    if n > 0 {
        lemma_closed_gives_nothing(s.after_terminate(), (n - 1) as nat);
    }
}

/// However many times `terminate` is called, once or more, the stored handle
/// is handed out for killing exactly once, by the first call; each later call
/// changes nothing and hands out nothing.
pub proof fn law_terminate_hands_out_once<H>(s: Supervisor<H>, n: nat)
    requires
        s.wf(),
        n >= 1,
    ensures
        handles_given(s, n) == (if s.held() is Some { 1nat } else { 0nat }),
        handles_given(s.after_terminate(), (n - 1) as nat) == 0,
        s.after_terminate().after_terminate() == s.after_terminate(),
{
    lemma_closed_gives_nothing(s.after_terminate(), (n - 1) as nat);
}

/// A termination that comes before the handle is stored cannot be undone by
/// the late store: the handle is handed back and the slot stays empty. After
/// termination a supervisor that never held a handle and one whose handle was
/// taken are in the same state.
pub proof fn law_no_store_after_terminate<H>(s: Supervisor<H>, t: Supervisor<H>, h: H)
    requires
        s.wf(),
        t.wf(),
    ensures
        s.after_terminate().after_store(h) == (s.after_terminate(), Some(h)),
        s.after_terminate().held() is None,
        s.after_terminate() == t.after_terminate(),
{
}

/// The log entry for the outcome of killing the worker: success at info, a
/// failure, such as a worker that had already exited, at warning.
pub fn kill_record(outcome: &Result<(), String>) -> (r: LogRecord)
    ensures
        outcome is Ok ==> r.level == Severity::Info && r.text@ == "killed on window destroy"@,
        outcome is Err ==> r.level == Severity::Warn && r.text@ == "kill failed: "@
            + outcome->Err_0@,
{
    proof {
        reveal_strlit("killed on window destroy");
        reveal_strlit("kill failed: ");
    }
    match outcome {
        Ok(()) => LogRecord { level: Severity::Info, text: String::from_str("killed on window destroy") },
        Err(e) => LogRecord {
            level: Severity::Warn,
            text: String::from_str("kill failed: ").concat(e.as_str()),
        },
    }
}

} // verus!
