use vstd::prelude::*;

verus! {

/// A capture time in milliseconds as published: the clock's milliseconds
/// since the Unix epoch cut to 64 bits, or zero for a clock set before the
/// epoch.
pub open spec fn timestamp_of(millis: Option<u128>) -> u64 {
    match millis {
        Some(m) => m as u64,
        None => 0,
    }
}

/// Relies on `SystemTime::now` and `SystemTime::duration_since`: the wall
/// clock's milliseconds since the Unix epoch, `None` when the clock reads an
/// earlier time. Nothing is promised of the value.
#[verifier::external_body]
fn millis_since_epoch() -> (r: Option<u128>) {
    match std::time::SystemTime::now().duration_since(std::time::UNIX_EPOCH) {
        Ok(d) => Some(d.as_millis()),
        Err(_) => None,
    }
}

/// The published form of a clock reading.
pub fn timestamp_from_millis(millis: Option<u128>) -> (r: u64)
    ensures
        r == timestamp_of(millis),
{
    match millis {
        Some(m) => m as u64,
        None => 0,
    }
}

/// The current time in milliseconds since the Unix epoch, as published with
/// key events. Any value may come back: it is the wall clock's.
pub fn now_millis() -> u64 {
    let m = millis_since_epoch();
    timestamp_from_millis(m)
}

} // verus!
