//! Real-time audio recording and playback: the decisions behind ALSA speakers
//! and microphones, verified.

pub mod channels;
pub mod config;
pub mod consts;
pub mod device;
pub mod error;
pub mod frame;
pub mod library;
pub mod microphone;
pub mod pcm;
pub mod player;
pub mod queue;
pub mod recovery;
pub mod simple;
pub mod speakers;
pub mod text;

pub use channels::{channel_mask, supports_channels};
pub use config::{
    channel_count, check_period, device_rate_plan, requested_rate_plan, ConfigStep, PERIOD_FRAMES,
    PLAYBACK_BUFFER_FRAMES, TARGET_RATE,
};
pub use consts::{BUFFER_SIZE, CHUNK_SIZE, SAMPLE_RATE};
pub use device::{
    device_list, list_should_open, query_should_open, DeviceDiscovery, DeviceEntry, DeviceHint,
};
pub use error::{check_call, check_count, check_frames, check_status, AlsaError, AudioError};
pub use frame::Frame;
pub use library::{
    device_symbols, first_missing, global, link_outcome, native_symbols, player_symbols,
    recorder_symbols, AlsaDevice, AlsaPlayer, AlsaRecorder, Global, LinkError, ALSA_LIBRARY,
};
pub use microphone::{valid_channel_count, Microphone, MicrophoneStream, PollStep};
pub use pcm::{SndPcmAccess, SndPcmFormat, SndPcmMode, SndPcmState, SndPcmStream};
pub use player::{frames_played, frames_to_play, reserve_amount, Readiness, Transfer, SILENCE_FRAMES};
pub use queue::{fill_output, QueueFormat};
pub use recovery::{
    is_recoverable, playback_recovery, recovery, Recovery, EAGAIN, EBADFD, EPIPE, ESTRPIPE,
};
pub use simple::{
    access_type, check_rate, hw_steps, open_outcome, open_stream, planar, prepare_error, rate_message,
    record_frames, sample_format, start_error, HwStep, Speaker, CHANNELS, RESAMPLE,
};
pub use speakers::{Speakers, SurroundFrame};
