//! Session events: why a turn was interrupted.

use vstd::prelude::*;

verus! {

/// Why a turn was interrupted.
#[derive(Debug, Clone, Copy, PartialEq, Eq, Structural)]
pub enum InterruptReason {
    /// The user started speaking while the assistant was still talking.
    UserBarged,
    /// Silence was detected, or the user stopped explicitly.
    UserStopped,
    /// The system aborted the turn (for instance to recover from an error).
    SystemAbort,
}

/// The name a reason goes by on the wire (snake case).
pub open spec fn reason_name(r: InterruptReason) -> Seq<char> {
    match r {
        InterruptReason::UserBarged => "user_barged"@,
        InterruptReason::UserStopped => "user_stopped"@,
        InterruptReason::SystemAbort => "system_abort"@,
    }
}

/// The reason a wire name stands for.
pub open spec fn reason_named(name: Seq<char>) -> Option<InterruptReason> {
    if name == "user_barged"@ {
        Some(InterruptReason::UserBarged)
    } else if name == "user_stopped"@ {
        Some(InterruptReason::UserStopped)
    } else if name == "system_abort"@ {
        Some(InterruptReason::SystemAbort)
    } else {
        None
    }
}

impl InterruptReason {
    pub fn wire_name(&self) -> (r: &'static str)
        ensures
            r@ == reason_name(*self),
    {
        match self {
            InterruptReason::UserBarged => "user_barged",
            InterruptReason::UserStopped => "user_stopped",
            InterruptReason::SystemAbort => "system_abort",
        }
    }

    pub fn from_wire_name(name: &str) -> (r: Option<InterruptReason>)
        ensures
            r == reason_named(name@),
    {
        if crate::text::str_eq(name, "user_barged") {
            Some(InterruptReason::UserBarged)
        } else if crate::text::str_eq(name, "user_stopped") {
            Some(InterruptReason::UserStopped)
        } else if crate::text::str_eq(name, "system_abort") {
            Some(InterruptReason::SystemAbort)
        } else {
            None
        }
    }
}

/// A reason read back from its wire name is the same reason.
pub proof fn lemma_reason_name_round_trip(r: InterruptReason)
    ensures
        reason_named(reason_name(r)) == Some(r),
{
    reveal_strlit("user_barged");
    reveal_strlit("user_stopped");
    reveal_strlit("system_abort");
    assert("user_stopped"@[5] != "user_barged"@[5]);
    assert("system_abort"@[0] != "user_barged"@[0]);
    assert("system_abort"@[0] != "user_stopped"@[0]);
}

} // verus!
