//! Console facade: text lines printed by the vehicle, handed over in batches.

use crate::stream_batcher::{StreamBatcher, CONSOLE_MAX_BATCH};
use crazyflie_lib::Crazyflie;
use std::sync::Arc;
use vstd::prelude::*;

verus! {

#[verifier::external_type_specification]
#[verifier::external_body]
pub struct ExCrazyflie(Crazyflie);

/// Access to the console of a connected vehicle. The line stream is opened on
/// the first poll; the vehicle keeps the console history since connection, so
/// the first poll starts with the oldest line.
pub struct Console {
    /// The connection this facade reads from.
    pub cf: Arc<Crazyflie>,
    /// Batching state of the line stream: at most one hundred lines per poll.
    pub lines: StreamBatcher<String>,
}

impl Console {
    /// A console facade on connection `cf`; no I/O is done.
    pub fn new(cf: Arc<Crazyflie>) -> (r: Console)
        ensures
            r.cf == cf,
            r.lines.wf(),
            !r.lines.source_ready(),
            !r.lines.polling(),
            r.lines.max_batch() == CONSOLE_MAX_BATCH,
            r.lines.received() == Seq::<String>::empty(),
            r.lines.delivered() == Seq::<String>::empty(),
    {
        Console { cf, lines: StreamBatcher::new(CONSOLE_MAX_BATCH) }
    }
}

} // verus!
