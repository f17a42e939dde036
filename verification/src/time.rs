use vstd::prelude::*;

verus! {

/// The duration that lasts exactly `secs` whole seconds.
pub uninterp spec fn duration_of_secs(secs: u64) -> core::time::Duration;

/// `Duration::from_secs` builds a duration out of a number of whole seconds and
/// nothing else, so its result is a function of that number alone;
/// `duration_of_secs` is the name under which contracts speak of it.
pub assume_specification[ core::time::Duration::from_secs ](secs: u64) -> (d: core::time::Duration)
    ensures
        d == duration_of_secs(secs),
;

} // verus!
