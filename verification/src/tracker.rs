//! A usage-limit tracker that warns its messenger as the tracked value
//! approaches and passes a quota.

use vstd::prelude::*;

verus! {

/// Something that can receive a warning message. Implemented by the
/// library's users; the tracker only ever calls `send`.
pub trait Messenger {
    fn send(&self, msg: &str);
}

/// Tracks a value against a quota and notifies a messenger when the
/// value crosses three quota thresholds.
pub struct LimitTracker<'a, T: Messenger> {
    pub messenger: &'a T,
    pub value: usize,
    pub max: usize,
}

impl<'a, T> LimitTracker<'a, T> where T: Messenger {
    /// A fresh tracker at zero, bound to its messenger and quota.
    pub fn new(messenger: &'a T, max: usize) -> (r: LimitTracker<'a, T>)
        ensures
            r.value == 0,
            r.max == max,
    {
        LimitTracker { messenger, value: 0, max }
    }

    /// Records the new value and sends at most one message: an error at
    /// or over the whole quota, an urgent warning from nine tenths up,
    /// a warning from three quarters up.
    pub fn set_value(&mut self, value: usize)
        ensures
            final(self).value == value,
            final(self).max == old(self).max,
            final(self).messenger == old(self).messenger,
    {
        self.value = value;

        let v: u128 = value as u128;
        let m: u128 = self.max as u128;

        if m == 0 {
            // A zero quota mirrors the zero division: no message for a
            // zero value, over-quota for anything else.
            if v > 0 {
                self.messenger.send("Error: You are over your quota!");
            }
        } else if v >= m {
            self.messenger.send("Error: You are over your quota!");
        } else if v * 10 >= m * 9 {
            self.messenger.send("Urgent warning: You've used up over 90% of your quota!");
        } else if v * 4 >= m * 3 {
            self.messenger.send("Warning: You've used up over 75% of your quota!");
        }
    }
}

} // verus!
