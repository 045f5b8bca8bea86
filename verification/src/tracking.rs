use vstd::prelude::*;

verus! {

/// A visitor who was last seen longer ago than this counts as a new visit, in
/// seconds.
pub const CACHE_THRESHOLD_SECS: i64 = 2100;

/// The margin by which the reported age of the tracking response is moved, in
/// seconds.
pub const CACHE_REVALIDATE_SECS: i64 = 300;

/// Whether a request counts as a new visit: it does where the browser names
/// no time at which it last loaded the script, or that time lies more than the
/// threshold before now. The present is given in whole seconds and the
/// nanoseconds past them.
pub open spec fn unique_visit(last_accessed: Option<i64>, now_secs: i64, now_nanos: u32) -> bool {
    match last_accessed {
        Some(last) => now_secs - last > CACHE_THRESHOLD_SECS || (now_secs - last
            == CACHE_THRESHOLD_SECS && now_nanos > 0),
        None => true,
    }
}

pub fn is_unique_visit(last_accessed: Option<i64>, now_secs: i64, now_nanos: u32) -> (r: bool)
    ensures
        r == unique_visit(last_accessed, now_secs, now_nanos),
{
    match last_accessed {
        Some(last) => {
            let gone: i128 = now_secs as i128 - last as i128;
            gone > CACHE_THRESHOLD_SECS as i128 || (gone == CACHE_THRESHOLD_SECS as i128
                && now_nanos > 0)
        },
        None => true,
    }
}

/// The age that the tracking response reports, in seconds: past the threshold
/// for a new visit, short of it for a repeated one.
pub fn cache_age_secs(is_user_unique: bool) -> (age: i64)
    ensures
        age == if is_user_unique {
            CACHE_THRESHOLD_SECS + CACHE_REVALIDATE_SECS
        } else {
            CACHE_THRESHOLD_SECS - CACHE_REVALIDATE_SECS
        },
{
    if is_user_unique {
        CACHE_THRESHOLD_SECS + CACHE_REVALIDATE_SECS
    } else {
        CACHE_THRESHOLD_SECS - CACHE_REVALIDATE_SECS
    }
}

} // verus!
