//! One-shot alert latch: decides whether a threshold crossing should
//! produce a notification. The side effect itself is the caller's
//! business; this module only guarantees that, between two resets, at
//! most one alert request is handed out.

use vstd::prelude::*;

verus! {

/// A notification request: plain text handed to the platform
/// notification adapter.
#[derive(Debug, Clone)]
pub struct Alert {
    pub title: String,
    pub message: String,
}

/// Latches a side-effecting notification so it fires exactly once per
/// threshold crossing, until explicitly reset.
#[derive(Debug, Clone)]
pub struct Alerter {
    pub fired: bool,
}

/// The transition `alert_once` makes: `notified` says whether an alert
/// was handed out, which happens exactly when the latch had not fired
/// yet; afterwards the latch has fired either way.
pub open spec fn alert_transition(pre: Alerter, post: Alerter, notified: bool) -> bool {
    &&& notified == !pre.fired
    &&& post.fired
}

impl Alerter {
    /// A fresh latch that has not fired.
    pub fn new() -> (r: Self)
        ensures
            !r.fired,
    {
        Alerter { fired: false }
    }

    /// If the latch has not fired yet, hands out an alert carrying the
    /// given texts and marks the latch fired; otherwise does nothing
    /// and hands out no alert.
    pub fn alert_once(&mut self, title: &str, message: &str) -> (r: Option<Alert>)
        ensures
            alert_transition(*old(self), *final(self), r is Some),
            old(self).fired ==> *final(self) == *old(self) && r is None,
            !old(self).fired ==> match r {
                Some(a) => a.title@ == title@ && a.message@ == message@,
                None => false,
            },
    {
        if self.fired {
            None
        } else {
            self.fired = true;
            Some(Alert { title: title.to_owned(), message: message.to_owned() })
        }
    }

    /// Re-arms the latch for the next threshold crossing.
    pub fn reset(&mut self)
        ensures
            !final(self).fired,
    {
        self.fired = false;
    }
}

/// One-shot law: starting from a latch that has not fired, two
/// consecutive `alert_once` calls with no intervening reset hand out
/// exactly one alert — the first; after a reset the next call hands
/// out exactly one more.
pub proof fn lemma_alert_one_shot(
    a0: Alerter,
    a1: Alerter,
    a2: Alerter,
    after_reset: Alerter,
    a3: Alerter,
    n1: bool,
    n2: bool,
    n3: bool,
)
    requires
        !a0.fired,
        alert_transition(a0, a1, n1),
        alert_transition(a1, a2, n2),
        !after_reset.fired,
        alert_transition(after_reset, a3, n3),
    ensures
        n1,
        !n2,
        n3,
{
}

} // verus!
