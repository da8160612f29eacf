//! Loading libasound at run time, and the backend that the library falls back
//! to when it cannot be loaded.

use vstd::prelude::*;

use crate::device::{
    default_entry, default_label, entries_view, query_descriptions_present, query_devices,
    spec_query_devices, DeviceEntry, DeviceHint,
};
use crate::consts::SAMPLE_RATE;
use crate::text::{push_char, push_text};

verus! {

/// Why a library could not be linked.
#[derive(Debug, Clone, Copy)]
pub enum LinkError {
    /// The shared object could not be opened.
    NotInstalled,
    /// The shared object lacks this function.
    DoesntExist(&'static str),
}

/// The index of the first `false` in `found`, if any.
pub open spec fn spec_first_missing(found: Seq<bool>) -> Option<int> {
    if forall|i: int| 0 <= i < found.len() ==> found[i] {
        None
    } else {
        Some(
            choose|i: int|
                0 <= i < found.len() && !found[i] && forall|j: int| 0 <= j < i ==> found[j],
        )
    }
}

/// The first symbol, in the order given, that the library lacks: `found[i]`
/// says whether the `i`-th symbol was found.
pub fn first_missing(found: &Vec<bool>) -> (r: Option<usize>)
    ensures
        r matches Some(i) ==> spec_first_missing(found@) == Some(i as int),
        r matches Some(i) ==> i < found@.len() && !found@[i as int],
        r is None ==> spec_first_missing(found@) is None,
        r is None <==> all_found(found@),
{
    let mut i: usize = 0;
    while i < found.len()
        invariant
            i <= found@.len(),
            forall|j: int| 0 <= j < i ==> found@[j],
        decreases found@.len() - i,
    {
        if !found[i] {
            assert(0 <= i < found@.len() && !found@[i as int] && forall|j: int|
                0 <= j < i ==> found@[j]);
            let ghost w = choose|k: int|
                0 <= k < found@.len() && !found@[k] && forall|j: int| 0 <= j < k ==> found@[j];
            assert(w == i) by {
                if w < i {
                    assert(found@[w]);
                } else if w > i {
                    assert(found@[i as int]);
                }
            }
            return Some(i);
        }
        i = i + 1;
    }
    None
}

/// The outcome of linking a library at run time: `opened` says whether the
/// shared object could be opened, and `found[i]` whether it defines
/// `symbols[i]`.  Success when it opened and defines them all; otherwise the
/// first reason, in the order given.
pub fn link_outcome(opened: bool, symbols: &Vec<&'static str>, found: &Vec<bool>) -> (r: Result<
    (),
    LinkError,
>)
    requires
        found@.len() == symbols@.len(),
    ensures
        !opened ==> r matches Err(LinkError::NotInstalled),
        opened && spec_first_missing(found@) is None ==> r is Ok,
        opened ==> (spec_first_missing(found@) matches Some(i) ==> r == Err::<(), LinkError>(
            LinkError::DoesntExist(symbols@[i]),
        )),
{
    if !opened {
        return Err(LinkError::NotInstalled);
    }
    match first_missing(found) {
        Some(k) => Err(LinkError::DoesntExist(symbols[k])),
        None => Ok(()),
    }
}

/// The name of the ALSA shared object.
pub const ALSA_LIBRARY: &'static str = "libasound.so.2";

/// The functions that the native backend calls, in the order they are looked
/// up.
pub fn native_symbols() -> (r: Vec<&'static str>)
    ensures
        r@ == seq![
            "snd_device_name_hint",
            "snd_device_name_get_hint",
            "snd_device_name_free_hint",
            "snd_pcm_open",
            "snd_pcm_close",
            "snd_pcm_drop",
            "snd_pcm_prepare",
            "snd_pcm_resume",
            "snd_pcm_state",
            "snd_pcm_readi",
            "snd_pcm_writei",
            "snd_pcm_poll_descriptors",
            "snd_pcm_poll_descriptors_count",
            "snd_pcm_hw_params",
            "snd_pcm_hw_params_free",
            "snd_pcm_hw_params_set_rate_near",
            "snd_pcm_hw_params_get_rate_numden",
            "snd_pcm_hw_params_any",
            "snd_pcm_hw_params_set_channels_max",
            "snd_pcm_hw_params_set_channels",
            "snd_pcm_hw_params_malloc",
            "snd_pcm_hw_params_set_access",
            "snd_pcm_hw_params_set_format",
            "snd_pcm_hw_params_set_buffer_size_near",
            "snd_pcm_hw_params_set_period_size_near",
        ],
{
    vec![
        "snd_device_name_hint",
        "snd_device_name_get_hint",
        "snd_device_name_free_hint",
        "snd_pcm_open",
        "snd_pcm_close",
        "snd_pcm_drop",
        "snd_pcm_prepare",
        "snd_pcm_resume",
        "snd_pcm_state",
        "snd_pcm_readi",
        "snd_pcm_writei",
        "snd_pcm_poll_descriptors",
        "snd_pcm_poll_descriptors_count",
        "snd_pcm_hw_params",
        "snd_pcm_hw_params_free",
        "snd_pcm_hw_params_set_rate_near",
        "snd_pcm_hw_params_get_rate_numden",
        "snd_pcm_hw_params_any",
        "snd_pcm_hw_params_set_channels_max",
        "snd_pcm_hw_params_set_channels",
        "snd_pcm_hw_params_malloc",
        "snd_pcm_hw_params_set_access",
        "snd_pcm_hw_params_set_format",
        "snd_pcm_hw_params_set_buffer_size_near",
        "snd_pcm_hw_params_set_period_size_near",
    ]
}

/// The functions of libasound that an [`AlsaDevice`] gives access to.
pub fn device_symbols() -> (r: Vec<&'static str>)
    ensures
        r@ == seq![
            "snd_pcm_open",
            "snd_pcm_hw_params_malloc",
            "snd_pcm_hw_params_any",
            "snd_pcm_hw_params_set_rate_resample",
            "snd_pcm_hw_params_set_access",
            "snd_pcm_hw_params_set_format",
            "snd_pcm_hw_params_set_channels",
            "snd_pcm_hw_params_set_rate_near",
            "snd_pcm_hw_params",
            "snd_pcm_hw_params_get_buffer_size",
            "snd_pcm_hw_params_get_period_size",
            "snd_pcm_hw_params_free",
            "snd_pcm_status_malloc",
            "snd_pcm_status",
            "snd_pcm_status_get_avail",
            "snd_pcm_close",
            "snd_pcm_start",
            "snd_pcm_avail_update",
            "snd_pcm_poll_descriptors_count",
            "snd_pcm_poll_descriptors",
        ],
{
    vec![
        "snd_pcm_open",
        "snd_pcm_hw_params_malloc",
        "snd_pcm_hw_params_any",
        "snd_pcm_hw_params_set_rate_resample",
        "snd_pcm_hw_params_set_access",
        "snd_pcm_hw_params_set_format",
        "snd_pcm_hw_params_set_channels",
        "snd_pcm_hw_params_set_rate_near",
        "snd_pcm_hw_params",
        "snd_pcm_hw_params_get_buffer_size",
        "snd_pcm_hw_params_get_period_size",
        "snd_pcm_hw_params_free",
        "snd_pcm_status_malloc",
        "snd_pcm_status",
        "snd_pcm_status_get_avail",
        "snd_pcm_close",
        "snd_pcm_start",
        "snd_pcm_avail_update",
        "snd_pcm_poll_descriptors_count",
        "snd_pcm_poll_descriptors",
    ]
}

/// The functions of libasound that an [`AlsaPlayer`] gives access to.
pub fn player_symbols() -> (r: Vec<&'static str>)
    ensures
        r@ == seq!["snd_pcm_prepare", "snd_pcm_writei"],
{
    vec!["snd_pcm_prepare", "snd_pcm_writei"]
}

/// The functions of libasound that an [`AlsaRecorder`] gives access to.
pub fn recorder_symbols() -> (r: Vec<&'static str>)
    ensures
        r@ == seq![
            "snd_pcm_readi",
        ],
{
    vec!["snd_pcm_readi"]
}

/// Whether every symbol was found.
pub open spec fn all_found(found: Seq<bool>) -> bool {
    forall|i: int| 0 <= i < found.len() ==> found[i]
}

/// Whether `found` says, symbol by symbol, that all of `expected` many
/// symbols were found.
fn all_present(found: &Vec<bool>, expected: usize) -> (r: bool)
    ensures
        r == (found@.len() == expected && all_found(found@)),
{
    if found.len() != expected {
        return false;
    }
    let missing = first_missing(found);
    missing.is_none()
}

/// Proof that the general-purpose PCM functions of libasound were found.
#[derive(Debug, Clone, Copy)]
pub struct AlsaDevice {
    _loaded: (),
}

impl AlsaDevice {
    /// The handle, when each of [`device_symbols`] was found (`found[i]` for
    /// the `i`-th); `None` as soon as one is missing.
    pub fn new(found: &Vec<bool>) -> (r: Option<AlsaDevice>)
        ensures
            r is Some <==> (found@.len() == 20 && all_found(found@)),
    {
        if all_present(found, 20) {
            Some(AlsaDevice { _loaded: () })
        } else {
            None
        }
    }
}

/// Proof that the playback functions of libasound were found.
#[derive(Debug, Clone, Copy)]
pub struct AlsaPlayer {
    _loaded: (),
}

impl AlsaPlayer {
    /// The handle, when each of [`player_symbols`] was found.
    pub fn new(found: &Vec<bool>) -> (r: Option<AlsaPlayer>)
        ensures
            r is Some <==> (found@.len() == 2 && all_found(found@)),
    {
        if all_present(found, 2) {
            Some(AlsaPlayer { _loaded: () })
        } else {
            None
        }
    }
}

/// Proof that the capture functions of libasound were found.
#[derive(Debug, Clone, Copy)]
pub struct AlsaRecorder {
    _loaded: (),
}

impl AlsaRecorder {
    /// The handle, when each of [`recorder_symbols`] was found.
    pub fn new(found: &Vec<bool>) -> (r: Option<AlsaRecorder>)
        ensures
            r is Some <==> (found@.len() == 1 && all_found(found@)),
    {
        if all_present(found, 1) {
            Some(AlsaRecorder { _loaded: () })
        } else {
            None
        }
    }
}

/// The audio backend: the native one (holding the loaded library `L`), or a
/// stand-in with one silent speaker and one silent microphone when the
/// native one is not available.
#[derive(Debug)]
pub enum Global<L> {
    /// The native backend.
    Native(L),
    /// The stand-in.
    Fake,
}

/// The audio backend for the outcome of loading the native one: native when
/// it loaded, the stand-in otherwise.
pub fn global<L>(native: Option<L>) -> (r: Global<L>)
    ensures
        native matches Some(l) ==> r == Global::Native(l),
        native is None ==> r is Fake,
{
    match native {
        Some(lib) => Global::Native(lib),
        None => Global::Fake,
    }
}

/// The text `"FakeSpeakers"`.
pub open spec fn fake_speakers_label() -> Seq<char> {
    seq!['F', 'a', 'k', 'e', 'S', 'p', 'e', 'a', 'k', 'e', 'r', 's']
}

/// The text `"FakeMicrophone"`.
pub open spec fn fake_microphone_label() -> Seq<char> {
    seq!['F', 'a', 'k', 'e', 'M', 'i', 'c', 'r', 'o', 'p', 'h', 'o', 'n', 'e']
}

/// A string with the characters of `cs`.
fn string_of(cs: &Vec<char>) -> (r: String)
    ensures
        r@ == cs@,
{
    let mut s = String::new();
    let mut i: usize = 0;
    while i < cs.len()
        invariant
            i <= cs@.len(),
            s@ == cs@.take(i as int),
        decreases cs@.len() - i,
    {
        push_char(&mut s, cs[i]);
        assert(cs@.take(i + 1) =~= cs@.take(i as int).push(cs@[i as int]));
        i = i + 1;
    }
    assert(cs@.take(cs@.len() as int) =~= cs@);
    s
}

/// The devices that the backend lists in one direction: for the native one,
/// the default device (with the channel mask it was opened with) followed by
/// the hinted devices that pass its rules and could be opened; for the
/// stand-in, its one device.
pub open spec fn spec_query<L>(
    g: Global<L>,
    default_supported: u8,
    hints: Seq<DeviceHint>,
    input: bool,
    fake: Seq<char>,
) -> Seq<(Seq<char>, u8)> {
    match g {
        Global::Native(_) => seq![(default_label(), default_supported)] + spec_query_devices(
            hints,
            input,
        ),
        Global::Fake => seq![(fake, 0u8)],
    }
}

impl<L> Global<L> {
    /// The name that each of the backend's devices gives when the backend
    /// has no better one: the stand-in's devices call themselves
    /// "Unknown"; the native backend names each device itself (`None`).
    pub fn device_name(&self) -> (r: Option<String>)
        ensures
            self is Fake ==> (r matches Some(n) && n@ == "Unknown"@),
            self is Native ==> r is None,
    {
        match self {
            Global::Native(_) => None,
            Global::Fake => {
                let mut n = String::new();
                push_text(&mut n, "Unknown");
                Some(n)
            },
        }
    }

    /// The sample rate that each of the backend's devices reports when the
    /// backend has no better one: the library's rate for the stand-in; the
    /// native backend reports each device's configured rate (`None`).
    pub fn device_sample_rate(&self) -> (r: Option<u32>)
        ensures
            self is Fake ==> r == Some(SAMPLE_RATE as u32),
            self is Native ==> r is None,
    {
        match self {
            Global::Native(_) => None,
            Global::Fake => Some(SAMPLE_RATE as u32),
        }
    }

    /// The speakers that the backend offers.  `default_supported` is the
    /// channel mask that the default playback device was opened with, and
    /// `hints` describe the other devices, with the outcome of opening those
    /// that [`crate::query_should_open`] names.
    pub fn query_speakers(&self, default_supported: u8, hints: &Vec<DeviceHint>) -> (r: Vec<
        DeviceEntry,
    >)
        requires
            query_descriptions_present(hints@),
        ensures
            entries_view(r@) == spec_query(
                *self,
                default_supported,
                hints@,
                false,
                fake_speakers_label(),
            ),
    {
        match self {
            Global::Native(_) => {
                let mut out = vec![default_entry(default_supported)];
                let ghost head = entries_view(out@);
                let mut rest = query_devices(hints, false);
                let ghost tail = entries_view(rest@);
                out.append(&mut rest);
                assert(entries_view(out@) =~= head + tail);
                out
            },
            Global::Fake => {
                let name = string_of(
                    &vec!['F', 'a', 'k', 'e', 'S', 'p', 'e', 'a', 'k', 'e', 'r', 's'],
                );
                let out = vec![DeviceEntry { name, supported: 0 }];
                assert(entries_view(out@) =~= seq![(fake_speakers_label(), 0u8)]);
                out
            },
        }
    }

    /// The microphones that the backend offers.  `default_supported` is the
    /// channel mask that the default capture device was opened with, and
    /// `hints` describe the other devices, with the outcome of opening those
    /// that [`crate::query_should_open`] names.
    pub fn query_microphones(&self, default_supported: u8, hints: &Vec<DeviceHint>) -> (r: Vec<
        DeviceEntry,
    >)
        requires
            query_descriptions_present(hints@),
        ensures
            entries_view(r@) == spec_query(
                *self,
                default_supported,
                hints@,
                true,
                fake_microphone_label(),
            ),
    {
        match self {
            Global::Native(_) => {
                let mut out = vec![default_entry(default_supported)];
                let ghost head = entries_view(out@);
                let mut rest = query_devices(hints, true);
                let ghost tail = entries_view(rest@);
                out.append(&mut rest);
                assert(entries_view(out@) =~= head + tail);
                out
            },
            Global::Fake => {
                let name = string_of(
                    &vec!['F', 'a', 'k', 'e', 'M', 'i', 'c', 'r', 'o', 'p', 'h', 'o', 'n', 'e'],
                );
                let out = vec![DeviceEntry { name, supported: 0 }];
                assert(entries_view(out@) =~= seq![(fake_microphone_label(), 0u8)]);
                out
            },
        }
    }
}

} // verus!
