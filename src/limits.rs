//! Tracks a value against a quota and warns through a messenger as the
//! value nears or passes it.
use vstd::prelude::*;

verus! {

/// Something that delivers messages, supplied by the user of the tracker.
pub trait Messenger {
    fn send(&self, msg: &str);
}

/// The three warnings, from the most to the least severe.
pub open spec fn over_quota_text() -> Seq<char> {
    "Error: You are over your quota!"@
}

pub open spec fn urgent_text() -> Seq<char> {
    "Urgent warning: You've used up over 90% of your quota!"@
}

pub open spec fn warning_text() -> Seq<char> {
    "Warning: You've used up over 75% of your quota!"@
}

/// Which warning `value` out of `max` calls for, if any: over the quota at
/// 100% and above, urgent at 90%, a warning at 75%. A quota of zero is
/// exceeded by any positive value; zero out of zero calls for nothing.
pub open spec fn quota_level(value: nat, max: nat) -> Option<Seq<char>> {
    if max == 0 {
        if value > 0 {
            Some(over_quota_text())
        } else {
            None
        }
    } else if value >= max {
        Some(over_quota_text())
    } else if 10 * value >= 9 * max {
        Some(urgent_text())
    } else if 4 * value >= 3 * max {
        Some(warning_text())
    } else {
        None
    }
}

/// The warning for `value` out of `max`, if any.
pub fn quota_message(value: usize, max: usize) -> (m: Option<&'static str>)
    ensures
        m matches Some(s) ==> quota_level(value as nat, max as nat) == Some(s@),
        m is None <==> quota_level(value as nat, max as nat) is None,
{
    let v = value as u128;
    let x = max as u128;
    if max == 0 {
        if value > 0 {
            Some("Error: You are over your quota!")
        } else {
            None
        }
    } else if v >= x {
        Some("Error: You are over your quota!")
    } else if 10 * v >= 9 * x {
        Some("Urgent warning: You've used up over 90% of your quota!")
    } else if 4 * v >= 3 * x {
        Some("Warning: You've used up over 75% of your quota!")
    } else {
        None
    }
}

/// A value tracked against a fixed quota.
pub struct LimitTracker<'a, T: Messenger> {
    messenger: &'a T,
    value: usize,
    max: usize,
}

impl<'a, T: Messenger> LimitTracker<'a, T> {
    pub closed spec fn spec_value(&self) -> usize {
        self.value
    }

    pub closed spec fn spec_max(&self) -> usize {
        self.max
    }

    /// A tracker at zero against a quota of `max`.
    pub fn new(messenger: &'a T, max: usize) -> (t: LimitTracker<'a, T>)
        ensures
            t.spec_value() == 0,
            t.spec_max() == max,
    {
        LimitTracker { messenger, value: 0, max }
    }

    /// Records `value` and sends the warning it calls for, if any.
    pub fn set_value(&mut self, value: usize)
        ensures
            final(self).spec_value() == value,
            final(self).spec_max() == old(self).spec_max(),
    {
        self.value = value;
        if let Some(msg) = quota_message(self.value, self.max) {
            self.messenger.send(msg);
        }
    }
}

} // verus!
