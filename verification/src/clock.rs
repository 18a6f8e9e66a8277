use vstd::prelude::*;

verus! {

/// `SystemTime::elapsed` on `UNIX_EPOCH`, in whole seconds: the time by the system clock.
/// Nothing is claimed of the result; it is `None` where the clock stands before the epoch.
#[verifier::external_body]
pub(crate) fn epoch_seconds() -> Option<u64> {
    match std::time::UNIX_EPOCH.elapsed() {
        Ok(elapsed) => Some(elapsed.as_secs()),
        Err(_) => None,
    }
}

} // verus!
