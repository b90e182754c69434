//! The durable single-value IP cache, as the cycle logic sees it.
//!
//! The cache holds the last IP known to have been successfully applied. It
//! is read once at startup and written after each successful cycle; its
//! absence is not an error. Reading and writing the file are the
//! surrounding process's work; what the cached value means for a cycle is
//! decided here.
use vstd::prelude::*;

verus! {

/// Whether a freshly fetched IP warrants a full update cycle. A cycle is
/// skipped exactly when the cache already holds this IP: then the record was
/// brought to this value earlier and nothing has changed since.
pub fn should_run_cycle(cached: &Option<String>, fetched: &String) -> (r: bool)
    ensures
        r == match cached {
            Some(c) => c@ != fetched@,
            None => true,
        },
{
    match cached {
        Some(c) => !c.eq(fetched),
        None => true,
    }
}

/// What the durable cache holds after a cycle: the fetched IP when the
/// cycle was carried through successfully, the previous value untouched
/// otherwise. Returns the new value to write, or nothing when the cache is
/// to stay as it is.
pub fn cache_after_cycle(fetched: &String, cycle_ok: bool) -> (r: Option<String>)
    ensures
        cycle_ok ==> (r matches Some(v) && v@ == fetched@),
        !cycle_ok ==> r is None,
{
    if cycle_ok {
        Some(fetched.clone())
    } else {
        None
    }
}

} // verus!
