//! The seam to the channel that carries newly admitted links to the driver.

use vstd::prelude::*;

verus! {

/// How many batches the channel of results holds before a send has to wait.
pub const RESULT_CHANNEL_CAPACITY: usize = 2048;

/// Takes a result and passes it on. On success it hands the result back.
/// What it does is up to the implementation; the library is verified for
/// every answer.
pub trait ResultPublisher<R, E>: Sync + Send {
    fn notify(&self, result: R) -> Result<R, E>;
}

} // verus!
