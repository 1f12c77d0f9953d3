use vstd::prelude::*;

verus! {

/// Relies on std::time::SystemTime::now, read as seconds since the Unix
/// epoch. The result depends on the wall clock, so nothing is promised
/// of it; a clock set before the epoch reads as zero rather than
/// aborting.
#[verifier::external_body]
pub fn now_unix() -> i64 {
    match std::time::SystemTime::now().duration_since(std::time::UNIX_EPOCH) {
        Ok(elapsed) => elapsed.as_secs() as i64,
        Err(_) => 0,
    }
}

} // verus!
