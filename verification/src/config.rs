//! The hardware configuration of a player's or recorder's device: the calls
//! made, in order, and the checks on what the device accepted.

use vstd::prelude::*;

use crate::pcm::{SndPcmAccess, SndPcmFormat};
use crate::text::{push_decimal, push_text, spec_decimal};

verus! {

/// The period, in frames, that players and recorders ask for.
pub const PERIOD_FRAMES: u64 = 1024;

/// The buffer, in frames, that a player asks for: about three periods.
pub const PLAYBACK_BUFFER_FRAMES: u64 = 3072;

/// The sample rate that a device picks near when it chooses the rate itself.
pub const TARGET_RATE: u32 = 48_000;

/// One call of the hardware configuration.
#[derive(Debug, Clone, Copy, PartialEq, Eq, Structural)]
pub enum ConfigStep {
    /// Allocate the parameter structure.
    Allocate,
    /// Fill it with the full configuration space.
    Initialize,
    /// Turn resampling on or off.
    Resample(bool),
    /// Ask for the rate nearest to this one.
    RateNear(u32),
    /// Set the access type.
    Access(SndPcmAccess),
    /// Set the sample format.
    Format(SndPcmFormat),
    /// Set the channel count.
    Channels(u32),
    /// Ask for the period size (frames) nearest to this one.
    PeriodSizeNear(u64),
    /// Ask for the buffer size (frames) nearest to this one.
    BufferSizeNear(u64),
    /// Apply the parameters.
    Apply,
    /// Drop the frames that the device holds.
    Drop,
}

/// The calls that end a configuration: a player limits its buffer, a
/// recorder applies the parameters and drops what the device holds; both
/// then apply the parameters.
pub open spec fn spec_plan_tail(playback: bool) -> Seq<ConfigStep> {
    if playback {
        seq![ConfigStep::BufferSizeNear(PLAYBACK_BUFFER_FRAMES), ConfigStep::Apply]
    } else {
        seq![ConfigStep::Apply, ConfigStep::Drop, ConfigStep::Apply]
    }
}

/// The calls of a configuration where the device picks a rate near
/// 48 kHz itself, without resampling, interleaved signed 16-bit stereo.
pub open spec fn spec_device_rate_plan(playback: bool) -> Seq<ConfigStep> {
    seq![
        ConfigStep::Allocate,
        ConfigStep::Initialize,
        ConfigStep::Resample(false),
        ConfigStep::RateNear(TARGET_RATE),
        ConfigStep::Access(SndPcmAccess::RwInterleaved),
        ConfigStep::Format(SndPcmFormat::S16Le),
        ConfigStep::Channels(2),
        ConfigStep::PeriodSizeNear(PERIOD_FRAMES),
    ] + spec_plan_tail(playback)
}

/// The calls of a configuration at the requested `rate`, with resampling,
/// interleaved signed 16-bit stereo.
pub open spec fn spec_requested_rate_plan(playback: bool, rate: u32) -> Seq<ConfigStep> {
    seq![
        ConfigStep::Allocate,
        ConfigStep::Initialize,
        ConfigStep::Resample(true),
        ConfigStep::Access(SndPcmAccess::RwInterleaved),
        ConfigStep::Format(SndPcmFormat::S16Le),
        ConfigStep::Channels(2),
        ConfigStep::RateNear(rate),
        ConfigStep::PeriodSizeNear(PERIOD_FRAMES),
    ] + spec_plan_tail(playback)
}

fn push_tail(plan: &mut Vec<ConfigStep>, playback: bool)
    ensures
        final(plan)@ == old(plan)@ + spec_plan_tail(playback),
{
    if playback {
        plan.push(ConfigStep::BufferSizeNear(PLAYBACK_BUFFER_FRAMES));
        plan.push(ConfigStep::Apply);
    } else {
        plan.push(ConfigStep::Apply);
        plan.push(ConfigStep::Drop);
        plan.push(ConfigStep::Apply);
    }
    assert(final(plan)@ =~= old(plan)@ + spec_plan_tail(playback));
}

/// The calls that configure a player (`playback`) or recorder whose device
/// picks the rate; the rate it picked is then the stream's rate.
pub fn device_rate_plan(playback: bool) -> (r: Vec<ConfigStep>)
    ensures
        r@ == spec_device_rate_plan(playback),
{
    let mut plan = vec![
        ConfigStep::Allocate,
        ConfigStep::Initialize,
        ConfigStep::Resample(false),
        ConfigStep::RateNear(TARGET_RATE),
        ConfigStep::Access(SndPcmAccess::RwInterleaved),
        ConfigStep::Format(SndPcmFormat::S16Le),
        ConfigStep::Channels(2),
        ConfigStep::PeriodSizeNear(PERIOD_FRAMES),
    ];
    push_tail(&mut plan, playback);
    plan
}

/// The calls that configure a player (`playback`) or recorder at `rate`;
/// the rate that the device took is then checked with
/// [`crate::check_rate`].
pub fn requested_rate_plan(playback: bool, rate: u32) -> (r: Vec<ConfigStep>)
    ensures
        r@ == spec_requested_rate_plan(playback, rate),
{
    let mut plan = vec![
        ConfigStep::Allocate,
        ConfigStep::Initialize,
        ConfigStep::Resample(true),
        ConfigStep::Access(SndPcmAccess::RwInterleaved),
        ConfigStep::Format(SndPcmFormat::S16Le),
        ConfigStep::Channels(2),
        ConfigStep::RateNear(rate),
        ConfigStep::PeriodSizeNear(PERIOD_FRAMES),
    ];
    push_tail(&mut plan, playback);
    plan
}

/// The message for a device that did not take the period asked for.
pub open spec fn spec_period_message(actual: u64) -> Seq<char> {
    "Wavy: Tried to set period size: "@ + spec_decimal(PERIOD_FRAMES as nat) + ", Got: "@
        + spec_decimal(actual as nat) + "!"@
}

/// Check the period that the device took: it must be the one asked for;
/// otherwise the message to abort with.
pub fn check_period(actual: u64) -> (r: Result<(), String>)
    ensures
        actual == PERIOD_FRAMES <==> r is Ok,
        r matches Err(m) ==> m@ == spec_period_message(actual),
{
    if actual == PERIOD_FRAMES {
        return Ok(());
    }
    let mut m = String::new();
    push_text(&mut m, "Wavy: Tried to set period size: ");
    push_decimal(&mut m, PERIOD_FRAMES);
    push_text(&mut m, ", Got: ");
    push_decimal(&mut m, actual);
    push_text(&mut m, "!");
    assert(m@ =~= spec_period_message(actual));
    Err(m)
}

/// The channel count that libasound reported (`ret` is the call's status and
/// `count` what it wrote): 0 when the library is missing (`loaded` false),
/// when the call failed, or when the count does not fit in a byte.
pub fn channel_count(loaded: bool, ret: i32, count: u32) -> (r: u8)
    ensures
        loaded && ret == 0 && count <= u8::MAX ==> r == count,
        !(loaded && ret == 0 && count <= u8::MAX) ==> r == 0,
{
    if !loaded || ret != 0 {
        0
    } else if count <= 255 {
        count as u8
    } else {
        0
    }
}


/// Every configuration plan sets up interleaved signed 16-bit stereo: each
/// plan sets the channel count once, to two; sets the access type and format
/// once each, to interleaved read/write and signed 16-bit little-endian; asks
/// for the period of 1024 frames once; asks for the requested rate (or, when
/// the device picks, for 48 kHz) once, with resampling on exactly when a
/// rate is requested; allocates first; and applies the parameters last.  A
/// player limits the buffer to three periods; a recorder drops what the
/// device holds.
pub proof fn lemma_plans_configure_stereo(playback: bool, rate: u32)
    ensures
        forall|i: int|
            0 <= i < spec_requested_rate_plan(playback, rate).len() ==> {
                let s = #[trigger] spec_requested_rate_plan(playback, rate)[i];
                &&& s is Channels ==> s == ConfigStep::Channels(2)
                &&& s is Access ==> s == ConfigStep::Access(SndPcmAccess::RwInterleaved)
                &&& s is Format ==> s == ConfigStep::Format(SndPcmFormat::S16Le)
                &&& s is RateNear ==> s == ConfigStep::RateNear(rate)
                &&& s is Resample ==> s == ConfigStep::Resample(true)
                &&& s is PeriodSizeNear ==> s == ConfigStep::PeriodSizeNear(1024)
                &&& s is BufferSizeNear ==> s == ConfigStep::BufferSizeNear(3072) && playback
                &&& s is Drop ==> !playback
            },
        forall|i: int|
            0 <= i < spec_device_rate_plan(playback).len() ==> {
                let s = #[trigger] spec_device_rate_plan(playback)[i];
                &&& s is Channels ==> s == ConfigStep::Channels(2)
                &&& s is Access ==> s == ConfigStep::Access(SndPcmAccess::RwInterleaved)
                &&& s is Format ==> s == ConfigStep::Format(SndPcmFormat::S16Le)
                &&& s is RateNear ==> s == ConfigStep::RateNear(48000)
                &&& s is Resample ==> s == ConfigStep::Resample(false)
                &&& s is PeriodSizeNear ==> s == ConfigStep::PeriodSizeNear(1024)
                &&& s is BufferSizeNear ==> s == ConfigStep::BufferSizeNear(3072) && playback
                &&& s is Drop ==> !playback
            },
        spec_requested_rate_plan(playback, rate).contains(ConfigStep::Channels(2)),
        spec_requested_rate_plan(playback, rate).contains(ConfigStep::RateNear(rate)),
        spec_requested_rate_plan(playback, rate).contains(ConfigStep::Access(SndPcmAccess::RwInterleaved)),
        spec_requested_rate_plan(playback, rate).contains(ConfigStep::Format(SndPcmFormat::S16Le)),
        spec_requested_rate_plan(playback, rate).contains(ConfigStep::PeriodSizeNear(1024)),
        spec_device_rate_plan(playback).contains(ConfigStep::Channels(2)),
        spec_device_rate_plan(playback).contains(ConfigStep::RateNear(48000)),
        spec_device_rate_plan(playback).contains(ConfigStep::Access(SndPcmAccess::RwInterleaved)),
        spec_device_rate_plan(playback).contains(ConfigStep::Format(SndPcmFormat::S16Le)),
        spec_device_rate_plan(playback).contains(ConfigStep::PeriodSizeNear(1024)),
        spec_requested_rate_plan(playback, rate)[0] == ConfigStep::Allocate,
        spec_device_rate_plan(playback)[0] == ConfigStep::Allocate,
        spec_requested_rate_plan(playback, rate).last() == ConfigStep::Apply,
        spec_device_rate_plan(playback).last() == ConfigStep::Apply,
        playback ==> spec_requested_rate_plan(playback, rate).contains(
            ConfigStep::BufferSizeNear(3072),
        ) && spec_device_rate_plan(playback).contains(ConfigStep::BufferSizeNear(3072)),
        !playback ==> spec_requested_rate_plan(playback, rate).contains(ConfigStep::Drop)
            && spec_device_rate_plan(playback).contains(ConfigStep::Drop),
{
    let req = spec_requested_rate_plan(playback, rate);
    let dev = spec_device_rate_plan(playback);
    if playback {
        assert(req =~= seq![
            ConfigStep::Allocate,
            ConfigStep::Initialize,
            ConfigStep::Resample(true),
            ConfigStep::Access(SndPcmAccess::RwInterleaved),
            ConfigStep::Format(SndPcmFormat::S16Le),
            ConfigStep::Channels(2),
            ConfigStep::RateNear(rate),
            ConfigStep::PeriodSizeNear(1024),
            ConfigStep::BufferSizeNear(3072),
            ConfigStep::Apply,
        ]);
        assert(dev =~= seq![
            ConfigStep::Allocate,
            ConfigStep::Initialize,
            ConfigStep::Resample(false),
            ConfigStep::RateNear(48000),
            ConfigStep::Access(SndPcmAccess::RwInterleaved),
            ConfigStep::Format(SndPcmFormat::S16Le),
            ConfigStep::Channels(2),
            ConfigStep::PeriodSizeNear(1024),
            ConfigStep::BufferSizeNear(3072),
            ConfigStep::Apply,
        ]);
        assert(req[5] == ConfigStep::Channels(2));
        assert(req[6] == ConfigStep::RateNear(rate));
        assert(req[3] == ConfigStep::Access(SndPcmAccess::RwInterleaved));
        assert(req[4] == ConfigStep::Format(SndPcmFormat::S16Le));
        assert(req[7] == ConfigStep::PeriodSizeNear(1024));
        assert(req[8] == ConfigStep::BufferSizeNear(3072));
        assert(dev[6] == ConfigStep::Channels(2));
        assert(dev[3] == ConfigStep::RateNear(48000));
        assert(dev[4] == ConfigStep::Access(SndPcmAccess::RwInterleaved));
        assert(dev[5] == ConfigStep::Format(SndPcmFormat::S16Le));
        assert(dev[7] == ConfigStep::PeriodSizeNear(1024));
        assert(dev[8] == ConfigStep::BufferSizeNear(3072));
    } else {
        assert(req =~= seq![
            ConfigStep::Allocate,
            ConfigStep::Initialize,
            ConfigStep::Resample(true),
            ConfigStep::Access(SndPcmAccess::RwInterleaved),
            ConfigStep::Format(SndPcmFormat::S16Le),
            ConfigStep::Channels(2),
            ConfigStep::RateNear(rate),
            ConfigStep::PeriodSizeNear(1024),
            ConfigStep::Apply,
            ConfigStep::Drop,
            ConfigStep::Apply,
        ]);
        assert(dev =~= seq![
            ConfigStep::Allocate,
            ConfigStep::Initialize,
            ConfigStep::Resample(false),
            ConfigStep::RateNear(48000),
            ConfigStep::Access(SndPcmAccess::RwInterleaved),
            ConfigStep::Format(SndPcmFormat::S16Le),
            ConfigStep::Channels(2),
            ConfigStep::PeriodSizeNear(1024),
            ConfigStep::Apply,
            ConfigStep::Drop,
            ConfigStep::Apply,
        ]);
        assert(req[5] == ConfigStep::Channels(2));
        assert(req[6] == ConfigStep::RateNear(rate));
        assert(req[3] == ConfigStep::Access(SndPcmAccess::RwInterleaved));
        assert(req[4] == ConfigStep::Format(SndPcmFormat::S16Le));
        assert(req[7] == ConfigStep::PeriodSizeNear(1024));
        assert(req[9] == ConfigStep::Drop);
        assert(dev[6] == ConfigStep::Channels(2));
        assert(dev[3] == ConfigStep::RateNear(48000));
        assert(dev[4] == ConfigStep::Access(SndPcmAccess::RwInterleaved));
        assert(dev[5] == ConfigStep::Format(SndPcmFormat::S16Le));
        assert(dev[7] == ConfigStep::PeriodSizeNear(1024));
        assert(dev[9] == ConfigStep::Drop);
    }
}

} // verus!
