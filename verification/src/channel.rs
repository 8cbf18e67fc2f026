//! What the two channels share: the shape of one blocking read, the
//! platform's recognized connection-reset codes, and the reconnect state
//! machine — unbounded retry at a fixed interval until an attempt succeeds.

use vstd::prelude::*;

verus! {

/// Fixed backoff between reconnection attempts, in seconds.
pub const RETRY_INTERVAL_SECS: u64 = 5;

/// The platform's broken-pipe error code, recognized on the source channel.
pub const SOURCE_RESET_CODE: i32 = 109;

/// The platform's connection-reset error code, recognized on the sink
/// channel.
pub const SINK_RESET_CODE: i32 = 10054;

/// What one blocking read on a channel produced: a chunk of bytes, or an
/// I/O error with its raw OS error code when the platform exposes one.
#[derive(Debug)]
pub enum ReadEvent {
    Data(Vec<u8>),
    Failed(Option<i32>),
}

/// Whether a channel currently holds a live connection.
#[derive(Clone, Copy, Debug, PartialEq, Eq, Structural)]
pub enum ChannelPhase {
    Up,
    Down,
}

/// One reconnection attempt's outcome.
#[derive(Clone, Copy, Debug, PartialEq, Eq, Structural)]
pub enum ConnectAttempt {
    Succeeded,
    Failed,
}

/// The channel phase after a run of reconnection attempts, each made while
/// the channel was still down.
pub open spec fn phase_after(attempts: Seq<ConnectAttempt>) -> ChannelPhase
    decreases attempts.len(),
{
    if attempts.len() == 0 {
        ChannelPhase::Down
    } else if attempts[0] is Succeeded {
        ChannelPhase::Up
    } else {
        phase_after(attempts.drop_first())
    }
}

/// Advances a downed channel by one reconnection attempt: a success brings
/// the channel up with nothing left to wait for; a failure leaves it down
/// and asks for the fixed backoff before the next attempt.
pub fn reconnect_step(phase: &mut ChannelPhase, attempt: ConnectAttempt) -> (wait: Option<u64>)
    requires
        *old(phase) is Down,
    ensures
        attempt is Succeeded ==> *final(phase) is Up && wait is None,
        attempt is Failed ==> *final(phase) is Down && wait == Some(RETRY_INTERVAL_SECS),
{
    match attempt {
        ConnectAttempt::Succeeded => {
            *phase = ChannelPhase::Up;
            None
        },
        ConnectAttempt::Failed => Some(RETRY_INTERVAL_SECS),
    }
}

/// Retrying is unbounded and only a success ends it: after a reset, the
/// channel is up again exactly when some attempt in the run succeeded;
/// while every attempt has failed it is still down, retrying.
pub proof fn lemma_retry_until_success(attempts: Seq<ConnectAttempt>)
    ensures
        phase_after(attempts) is Up <==> exists|i: int|
            0 <= i < attempts.len() && attempts[i] is Succeeded,
    decreases attempts.len(),
{
    if attempts.len() > 0 && attempts[0] is Failed {
        let d = attempts.drop_first();
        lemma_retry_until_success(d);
        if phase_after(attempts) is Up {
            let j = choose|j: int| 0 <= j < d.len() && d[j] is Succeeded;
            assert(attempts[j + 1] is Succeeded);
        }
        if exists|i: int| 0 <= i < attempts.len() && attempts[i] is Succeeded {
            let i = choose|i: int| 0 <= i < attempts.len() && attempts[i] is Succeeded;
            assert(d[i - 1] is Succeeded);
        }
    }
}

} // verus!
