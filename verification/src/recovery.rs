//! What to do when libasound refuses to read or write frames.

use vstd::prelude::*;

use crate::pcm::SndPcmState;

verus! {

/// The error that libasound returns when a non-blocking device is not ready
/// (`-EAGAIN`).
pub const EAGAIN: i64 = -11;

/// The error for an underrun (playback) or overrun (capture) (`-EPIPE`).
pub const EPIPE: i64 = -32;

/// The error for a device in a state that does not allow the call
/// (`-EBADFD`).
pub const EBADFD: i64 = -77;

/// The error for a suspended device (`-ESTRPIPE`).
pub const ESTRPIPE: i64 = -86;

/// What to do after a failed read or write.
#[derive(Debug, Clone, Copy, PartialEq, Eq, Structural)]
pub enum Recovery {
    /// The device is not ready: wait until it wakes the task.
    Wait,
    /// The stream ran dry or over: prepare the device again.
    Prepare,
    /// The stream got suspended: try to resume it, then prepare the device
    /// (`only_if_resumed`: only when resuming succeeded).
    Resume {
        /// Whether preparing depends on resuming having succeeded.
        only_if_resumed: bool,
    },
}

/// Whether a failed read or write with `error` can be recovered from, the
/// device being in `state` (asked for only after `-EPIPE`): the device was
/// not ready, the stream ran dry or over (the device is then in the XRUN
/// state), or the stream got suspended.  Any other error is a bug of the
/// caller or of the device, on which the stream is aborted.
pub open spec fn spec_recoverable(error: i64, state: Option<SndPcmState>) -> bool {
    error == EAGAIN || error == ESTRPIPE || (error == EPIPE && state == Some(SndPcmState::Xrun))
}

/// Whether a failed read or write with `error` can be recovered from; `state`
/// is the device's state, which the caller asks for only when `error` is
/// `-EPIPE`.
pub fn is_recoverable(error: i64, state: Option<SndPcmState>) -> (r: bool)
    ensures
        r == spec_recoverable(error, state),
{
    error == EAGAIN || error == ESTRPIPE || (error == EPIPE && match state {
        Some(SndPcmState::Xrun) => true,
        _ => false,
    })
}

/// What a speaker does after a failed write with `error`; `state` is the
/// device's state, asked for only after an underrun (`-EPIPE`).
pub open spec fn spec_playback_recovery(error: i64, state: Option<SndPcmState>) -> Recovery
    recommends
        spec_recoverable(error, state),
{
    if error == EAGAIN {
        Recovery::Wait
    } else if error == EPIPE {
        Recovery::Prepare
    } else {
        Recovery::Resume { only_if_resumed: false }
    }
}

/// What a microphone, or a player writing whole buffers, does after a failed
/// read or write with `error`; `state` is the device's state, asked for only
/// after an overrun or underrun (`-EPIPE`).
pub open spec fn spec_recovery(error: i64, state: Option<SndPcmState>) -> Recovery
    recommends
        spec_recoverable(error, state),
{
    if error == EAGAIN {
        Recovery::Wait
    } else if error == EPIPE {
        Recovery::Prepare
    } else {
        Recovery::Resume { only_if_resumed: true }
    }
}

/// What a speaker does after a failed write with `error`.  `state` is the
/// device's state; the caller asks for it only when `error` is `-EPIPE`.
pub fn playback_recovery(error: i64, state: Option<SndPcmState>) -> (r: Recovery)
    requires
        spec_recoverable(error, state),
    ensures
        r == spec_playback_recovery(error, state),
{
    if error == EAGAIN {
        Recovery::Wait
    } else if error == EPIPE {
        Recovery::Prepare
    } else {
        Recovery::Resume { only_if_resumed: false }
    }
}

/// What a microphone, or a player writing whole buffers, does after a failed
/// read or write with `error`.  `state` is the device's state; the caller
/// asks for it only when `error` is `-EPIPE`.
pub fn recovery(error: i64, state: Option<SndPcmState>) -> (r: Recovery)
    requires
        spec_recoverable(error, state),
    ensures
        r == spec_recovery(error, state),
{
    if error == EAGAIN {
        Recovery::Wait
    } else if error == EPIPE {
        Recovery::Prepare
    } else {
        Recovery::Resume { only_if_resumed: true }
    }
}

/// A device that is merely not ready is never prepared or resumed, a
/// device is prepared only after it ran dry or over, and a suspended device
/// is always resumed first.
pub proof fn lemma_recovery_is_conservative(error: i64, state: Option<SndPcmState>)
    requires
        spec_recoverable(error, state),
    ensures
        error == EAGAIN ==> spec_recovery(error, state) == Recovery::Wait
            && spec_playback_recovery(error, state) == Recovery::Wait,
        spec_recovery(error, state) == Recovery::Prepare <==> (error == EPIPE && state == Some(
            SndPcmState::Xrun,
        )),
        spec_playback_recovery(error, state) == Recovery::Prepare <==> (error == EPIPE && state
            == Some(SndPcmState::Xrun)),
        spec_recovery(error, state) is Resume <==> error == ESTRPIPE,
        spec_playback_recovery(error, state) is Resume <==> error == ESTRPIPE,
{
}

} // verus!
