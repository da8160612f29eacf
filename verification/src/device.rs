//! Which of the devices that libasound hints at become speakers or
//! microphones, under which names, and which channel counts they support.

use vstd::prelude::*;

use crate::text::{
    first_line, push_char, push_text, replace_newlines, same_text, spec_first_line,
    spec_replace_newlines, starts_with,
};

verus! {

/// What libasound tells of one PCM device (its "hints"), together with the
/// outcome of opening it for the direction that a listing is about.
#[derive(Debug, Clone)]
pub struct DeviceHint {
    /// The `NAME` hint, when it is valid UTF-8.
    pub id: Option<String>,
    /// First byte of the `IOID` hint; `None` when the device gives none (it
    /// then works both ways).
    pub io: Option<u8>,
    /// The `DESC` hint, when the device gives one.
    pub description: Option<String>,
    /// Bit mask of the supported channel counts (bit `i` for `i + 1`
    /// channels) when the device could be opened for the listing's direction;
    /// `None` when it could not, or was not tried.
    pub opened: Option<u8>,
}

/// A device that a listing reports: its human-readable name and the channel
/// counts it supports (bit `i` for `i + 1` channels).
#[derive(Debug, Clone)]
pub struct DeviceEntry {
    /// Human-readable name of the device.
    pub name: String,
    /// Bit mask of supported channel counts.
    pub supported: u8,
}

/// The name and channel mask of an entry, as plain values.
pub open spec fn entry_view(e: DeviceEntry) -> (Seq<char>, u8) {
    (e.name@, e.supported)
}

/// The entries of a listing, as plain values.
pub open spec fn entries_view(es: Seq<DeviceEntry>) -> Seq<(Seq<char>, u8)> {
    es.map_values(|e: DeviceEntry| entry_view(e))
}

/// Whether a device with this `IOID` byte records: no `IOID` or one that
/// starts with `I`.
pub open spec fn spec_is_input(io: Option<u8>) -> bool {
    io is None || io == Some(73u8)
}

/// Whether a device with this `IOID` byte plays: no `IOID` or one that starts
/// with `O`.
pub open spec fn spec_is_output(io: Option<u8>) -> bool {
    io is None || io == Some(79u8)
}

/// Whether a device with this `IOID` byte belongs in a listing of inputs
/// (`input`) or of outputs.
pub open spec fn spec_wanted(io: Option<u8>, input: bool) -> bool {
    (input && spec_is_input(io)) || (!input && spec_is_output(io))
}

/// Whether the device goes both ways or records.
pub fn is_input(io: Option<u8>) -> (r: bool)
    ensures
        r == spec_is_input(io),
{
    match io {
        None => true,
        Some(b) => b == 73u8,
    }
}

/// Whether the device goes both ways or plays.
pub fn is_output(io: Option<u8>) -> (r: bool)
    ensures
        r == spec_is_output(io),
{
    match io {
        None => true,
        Some(b) => b == 79u8,
    }
}

/// The text `"sysdefault"`.
pub open spec fn sysdefault_text() -> Seq<char> {
    seq!['s', 'y', 's', 'd', 'e', 'f', 'a', 'u', 'l', 't']
}

/// The text `"null"`.
pub open spec fn null_text() -> Seq<char> {
    seq!['n', 'u', 'l', 'l']
}

/// The text `"default"`.
pub open spec fn default_text() -> Seq<char> {
    seq!['d', 'e', 'f', 'a', 'u', 'l', 't']
}

/// The text `"Default"`.
pub open spec fn default_label() -> Seq<char> {
    seq!['D', 'e', 'f', 'a', 'u', 'l', 't']
}

/// Whether `s` begins with `"sysdefault"`.
pub open spec fn spec_is_sysdefault(s: Seq<char>) -> bool {
    sysdefault_text().len() <= s.len() && s.take(sysdefault_text().len() as int)
        == sysdefault_text()
}

/// Whether `s` begins with `"sysdefault"`.
fn is_sysdefault(s: &str) -> (r: bool)
    ensures
        r == spec_is_sysdefault(s@),
{
    proof {
        reveal_strlit("sysdefault");
    }
    assert("sysdefault"@ =~= sysdefault_text());
    starts_with(s, "sysdefault")
}

/// Whether `s` is `"null"`.
fn is_null(s: &str) -> (r: bool)
    ensures
        r == (s@ == null_text()),
{
    proof {
        reveal_strlit("null");
    }
    assert("null"@ =~= null_text());
    same_text(s, "null")
}

/// Whether `s` is `"default"`.
fn is_default(s: &str) -> (r: bool)
    ensures
        r == (s@ == default_text()),
{
    proof {
        reveal_strlit("default");
    }
    assert("default"@ =~= default_text());
    same_text(s, "default")
}

/// The text `"Default"`.
fn make_default_label() -> (r: String)
    ensures
        r@ == default_label(),
{
    let mut s = String::new();
    push_char(&mut s, 'D');
    push_char(&mut s, 'e');
    push_char(&mut s, 'f');
    push_char(&mut s, 'a');
    push_char(&mut s, 'u');
    push_char(&mut s, 'l');
    push_char(&mut s, 't');
    assert(s@ =~= default_label());
    s
}

// ---------------------------------------------------------------------------
// Listing with the rules of `device_list`: `sysdefault*` and `null` devices are
// left out, `default` is called "Default", any other device is called by its
// description with line feeds turned into ": ".

/// Whether the rules of [`device_list`] call this device by its description.
pub open spec fn spec_list_needs_description(h: DeviceHint) -> bool {
    match h.id {
        Some(x) => !spec_is_sysdefault(x@) && x@ != null_text() && x@ != default_text(),
        None => true,
    }
}

/// The name under which [`device_list`] reports this device, or `None` when
/// it leaves the device out whatever its direction.
pub open spec fn spec_list_label(h: DeviceHint) -> Option<Seq<char>> {
    match h.id {
        Some(x) => if spec_is_sysdefault(x@) || x@ == null_text() {
            None
        } else if x@ == default_text() {
            Some(default_label())
        } else {
            Some(spec_replace_newlines(h.description.unwrap()@))
        },
        None => Some(spec_replace_newlines(h.description.unwrap()@)),
    }
}

/// Whether [`device_list`] tries to open this device, when listing inputs
/// (`input`) or outputs.
pub open spec fn spec_list_should_open(h: DeviceHint, input: bool) -> bool {
    spec_list_label(h) is Some && spec_wanted(h.io, input)
}

/// The entry that [`device_list`] makes of this device, if any.
pub open spec fn spec_list_entry(h: DeviceHint, input: bool) -> Option<(Seq<char>, u8)> {
    if spec_list_should_open(h, input) && h.opened is Some {
        Some((spec_list_label(h).unwrap(), h.opened.unwrap()))
    } else {
        None
    }
}

/// The entries that [`device_list`] makes of `hs`, in order.
pub open spec fn spec_device_list(hs: Seq<DeviceHint>, input: bool) -> Seq<(Seq<char>, u8)>
    decreases hs.len(),
{
    if hs.len() == 0 {
        Seq::empty()
    } else {
        let rest = spec_device_list(hs.drop_last(), input);
        match spec_list_entry(hs.last(), input) {
            Some(e) => rest.push(e),
            None => rest,
        }
    }
}

/// Whether every hint that the rules call by its description has one.
pub open spec fn list_descriptions_present(hs: Seq<DeviceHint>) -> bool {
    forall|i: int|
        0 <= i < hs.len() && spec_list_needs_description(#[trigger] hs[i])
            ==> hs[i].description is Some
}

/// The name under which [`device_list`] reports `h`, if any.
fn list_label(h: &DeviceHint) -> (r: Option<String>)
    requires
        spec_list_needs_description(*h) ==> h.description is Some,
    ensures
        r matches Some(s) ==> spec_list_label(*h) == Some(s@),
        r is None ==> spec_list_label(*h) is None,
{
    match &h.id {
        Some(x) => {
            if is_sysdefault(x.as_str()) || is_null(x.as_str()) {
                None
            } else if is_default(x.as_str()) {
                Some(make_default_label())
            } else {
                match &h.description {
                    Some(d) => Some(replace_newlines(d.as_str())),
                    None => None,
                }
            }
        },
        None => match &h.description {
            Some(d) => Some(replace_newlines(d.as_str())),
            None => None,
        },
    }
}

/// Whether [`device_list`] tries to open `hint` when listing inputs (`input`)
/// or outputs: the caller opens exactly these devices and records the outcome
/// in `opened`.
pub fn list_should_open(hint: &DeviceHint, input: bool) -> (r: bool)
    requires
        spec_list_needs_description(*hint) ==> hint.description is Some,
    ensures
        r == spec_list_should_open(*hint, input),
{
    let label = list_label(hint);
    let wanted = (input && is_input(hint.io)) || (!input && is_output(hint.io));
    label.is_some() && wanted
}

/// Return the list of available audio devices of one direction: inputs
/// (`input`) or outputs.  A device is listed when its hints pass the rules
/// and it could be opened; it is named as the rules say.
pub fn device_list(hints: &Vec<DeviceHint>, input: bool) -> (r: Vec<DeviceEntry>)
    requires
        list_descriptions_present(hints@),
    ensures
        entries_view(r@) == spec_device_list(hints@, input),
{
    let mut out: Vec<DeviceEntry> = Vec::new();
    let mut i: usize = 0;
    while i < hints.len()
        invariant
            i <= hints@.len(),
            list_descriptions_present(hints@),
            entries_view(out@) == spec_device_list(hints@.take(i as int), input),
        decreases hints@.len() - i,
    {
        let h = &hints[i];
        assert(spec_list_needs_description(hints@[i as int]) ==> h.description is Some);
        assert(hints@.take(i + 1).drop_last() =~= hints@.take(i as int));
        let label = list_label(h);
        let wanted = (input && is_input(h.io)) || (!input && is_output(h.io));
        match label {
            Some(name) => {
                if wanted {
                    match h.opened {
                        Some(m) => {
                            out.push(DeviceEntry { name, supported: m });
                        },
                        None => {},
                    }
                }
            },
            None => {},
        }
        assert(entries_view(out@) =~= spec_device_list(hints@.take(i + 1), input));
        i = i + 1;
    }
    assert(hints@.take(hints@.len() as int) =~= hints@);
    out
}

// ---------------------------------------------------------------------------
// Listing with the rules of the native backend: the default device comes
// first; the hints named exactly `sysdefault`, `null` or `default` are left
// out; every other device is called by its description with line feeds
// turned into ": ".

/// Whether the native backend's rules call this device by its description.
pub open spec fn spec_query_needs_description(h: DeviceHint) -> bool {
    match h.id {
        Some(x) => x@ != sysdefault_text() && x@ != null_text() && x@ != default_text(),
        None => true,
    }
}

/// The name under which the native backend reports this device, or `None`
/// when it leaves the device out whatever its direction.
pub open spec fn spec_query_label(h: DeviceHint) -> Option<Seq<char>> {
    if spec_query_needs_description(h) {
        Some(spec_replace_newlines(h.description.unwrap()@))
    } else {
        None
    }
}

/// Whether the native backend tries to open this device.
pub open spec fn spec_query_should_open(h: DeviceHint, input: bool) -> bool {
    spec_query_label(h) is Some && spec_wanted(h.io, input)
}

/// The entry that the native backend makes of this device, if any.
pub open spec fn spec_query_entry(h: DeviceHint, input: bool) -> Option<(Seq<char>, u8)> {
    if spec_query_should_open(h, input) && h.opened is Some {
        Some((spec_query_label(h).unwrap(), h.opened.unwrap()))
    } else {
        None
    }
}

/// The entries that the native backend makes of `hs`, in order, without the
/// default device.
pub open spec fn spec_query_devices(hs: Seq<DeviceHint>, input: bool) -> Seq<(Seq<char>, u8)>
    decreases hs.len(),
{
    if hs.len() == 0 {
        Seq::empty()
    } else {
        let rest = spec_query_devices(hs.drop_last(), input);
        match spec_query_entry(hs.last(), input) {
            Some(e) => rest.push(e),
            None => rest,
        }
    }
}

/// Whether every hint that the native backend calls by its description has
/// one.
pub open spec fn query_descriptions_present(hs: Seq<DeviceHint>) -> bool {
    forall|i: int|
        0 <= i < hs.len() && spec_query_needs_description(#[trigger] hs[i])
            ==> hs[i].description is Some
}

/// The name under which the native backend reports `h`, if any.
fn query_label(h: &DeviceHint) -> (r: Option<String>)
    requires
        spec_query_needs_description(*h) ==> h.description is Some,
    ensures
        r matches Some(s) ==> spec_query_label(*h) == Some(s@),
        r is None ==> spec_query_label(*h) is None,
{
    let skip = match &h.id {
        Some(x) => {
            proof {
                reveal_strlit("sysdefault");
            }
            assert("sysdefault"@ =~= sysdefault_text());
            same_text(x.as_str(), "sysdefault") || is_null(x.as_str()) || is_default(
                x.as_str(),
            )
        },
        None => false,
    };
    if skip {
        None
    } else {
        match &h.description {
            Some(d) => Some(replace_newlines(d.as_str())),
            None => None,
        }
    }
}

/// Whether the native backend tries to open `hint` when listing inputs
/// (`input`) or outputs: the caller opens exactly these devices and records
/// the outcome in `opened`.
pub fn query_should_open(hint: &DeviceHint, input: bool) -> (r: bool)
    requires
        spec_query_needs_description(*hint) ==> hint.description is Some,
    ensures
        r == spec_query_should_open(*hint, input),
{
    let label = query_label(hint);
    let wanted = (input && is_input(hint.io)) || (!input && is_output(hint.io));
    label.is_some() && wanted
}

/// The devices of one direction that the native backend lists after the
/// default device.
pub fn query_devices(hints: &Vec<DeviceHint>, input: bool) -> (r: Vec<DeviceEntry>)
    requires
        query_descriptions_present(hints@),
    ensures
        entries_view(r@) == spec_query_devices(hints@, input),
{
    let mut out: Vec<DeviceEntry> = Vec::new();
    let mut i: usize = 0;
    while i < hints.len()
        invariant
            i <= hints@.len(),
            query_descriptions_present(hints@),
            entries_view(out@) == spec_query_devices(hints@.take(i as int), input),
        decreases hints@.len() - i,
    {
        let h = &hints[i];
        assert(spec_query_needs_description(hints@[i as int]) ==> h.description is Some);
        assert(hints@.take(i + 1).drop_last() =~= hints@.take(i as int));
        let label = query_label(h);
        let wanted = (input && is_input(h.io)) || (!input && is_output(h.io));
        match label {
            Some(name) => {
                if wanted {
                    match h.opened {
                        Some(m) => {
                            out.push(DeviceEntry { name, supported: m });
                        },
                        None => {},
                    }
                }
            },
            None => {},
        }
        assert(entries_view(out@) =~= spec_query_devices(hints@.take(i + 1), input));
        i = i + 1;
    }
    assert(hints@.take(hints@.len() as int) =~= hints@);
    out
}

/// The default device's entry: named "Default", with the channel mask it was
/// opened with.
pub fn default_entry(supported: u8) -> (r: DeviceEntry)
    ensures
        entry_view(r) == (default_label(), supported),
{
    DeviceEntry { name: make_default_label(), supported }
}

// ---------------------------------------------------------------------------
// Discovery: devices found since the last look.  Each hardware id is reported
// once; the default device is reported first of all, as "Default (default)";
// a device is named by the first line of its description followed by its id
// in brackets.

/// The texts of a list of strings.
pub open spec fn texts(v: Seq<String>) -> Seq<Seq<char>> {
    v.map_values(|s: String| s@)
}

/// The name "Default (default)".
pub open spec fn discovered_default_label() -> Seq<char> {
    default_label() + seq![' ', '('] + default_text() + seq![')']
}

/// Whether discovery skips the id `x` whatever it knows: `sysdefault*`,
/// `null` and `default`.
pub open spec fn spec_discover_skips(x: Seq<char>) -> bool {
    spec_is_sysdefault(x) || x == null_text() || x == default_text()
}

/// Whether discovery, knowing the ids `known`, reads the description of `h`:
/// when `h` has a new id that it does not skip.
pub open spec fn spec_discover_needs(known: Seq<Seq<char>>, h: DeviceHint) -> bool {
    match h.id {
        Some(x) => !spec_discover_skips(x@) && !known.contains(x@),
        None => false,
    }
}

/// One step of discovery: the name to open `h` under (when it is new, has a
/// first description line, and goes in the wanted direction), and the ids
/// known after it.
pub open spec fn spec_discover_step(known: Seq<Seq<char>>, h: DeviceHint, playback: bool) -> (
    Option<Seq<char>>,
    Seq<Seq<char>>,
) {
    if spec_discover_needs(known, h) {
        let x = h.id.unwrap()@;
        let label = match spec_first_line(h.description.unwrap()@) {
            Some(l) => if spec_wanted(h.io, !playback) {
                Some(l + seq![' ', '('] + x + seq![')'])
            } else {
                None
            },
            None => None,
        };
        (label, known.push(x))
    } else {
        (None, known)
    }
}

/// Discovery over the hints `hs`, knowing `known`: which hints to open, the
/// entries made of those opened, and the ids known afterwards.
#[verifier::opaque]
pub open spec fn spec_discover(known: Seq<Seq<char>>, hs: Seq<DeviceHint>, playback: bool) -> (
    Seq<bool>,
    Seq<(Seq<char>, u8)>,
    Seq<Seq<char>>,
)
    decreases hs.len(),
{
    if hs.len() == 0 {
        (Seq::empty(), Seq::empty(), known)
    } else {
        let (plan, entries, k) = spec_discover(known, hs.drop_last(), playback);
        let h = hs.last();
        let (label, k2) = spec_discover_step(k, h, playback);
        let plan2 = plan.push(label is Some);
        match label {
            Some(l) => match h.opened {
                Some(m) => (plan2, entries.push((l, m)), k2),
                None => (plan2, entries, k2),
            },
            None => (plan2, entries, k2),
        }
    }
}

/// Whether discovery finds a description wherever it reads one.
pub open spec fn discover_descriptions_present(
    known: Seq<Seq<char>>,
    hs: Seq<DeviceHint>,
    playback: bool,
) -> bool {
    forall|i: int|
        0 <= i < hs.len() && spec_discover_needs(
            spec_discover(known, hs.take(i), playback).2,
            #[trigger] hs[i],
        ) ==> hs[i].description is Some
}

/// The ids known once the default device has been considered.
pub open spec fn known_after_default(known: Seq<Seq<char>>) -> Seq<Seq<char>> {
    if known.contains(default_text()) {
        known
    } else {
        known.push(default_text())
    }
}

/// The entries that one round of discovery reports, newest first: the default
/// device (when it is new and opened) and then the new hinted devices that
/// were opened, all in reverse order.
pub open spec fn spec_discovered(
    known: Seq<Seq<char>>,
    default_opened: Option<u8>,
    hs: Seq<DeviceHint>,
    playback: bool,
) -> Seq<(Seq<char>, u8)> {
    let first: Seq<(Seq<char>, u8)> = if !known.contains(default_text())
        && default_opened is Some {
        seq![(discovered_default_label(), default_opened.unwrap())]
    } else {
        Seq::empty()
    };
    (first + spec_discover(known_after_default(known), hs, playback).1).reverse()
}

/// Discovery state: the hardware ids seen so far.
#[derive(Debug)]
pub struct DeviceDiscovery {
    known: Vec<String>,
}

/// Whether `v` holds a string with the text `x`.
fn holds_text(v: &Vec<String>, x: &str) -> (r: bool)
    ensures
        r == texts(v@).contains(x@),
{
    let mut i: usize = 0;
    while i < v.len()
        invariant
            i <= v@.len(),
            forall|j: int| 0 <= j < i ==> v@[j]@ != x@,
        decreases v@.len() - i,
    {
        if same_text(v[i].as_str(), x) {
            assert(texts(v@)[i as int] == x@);
            return true;
        }
        i = i + 1;
    }
    assert(!texts(v@).contains(x@)) by {
        if texts(v@).contains(x@) {
            let j = choose|j: int| 0 <= j < texts(v@).len() && texts(v@)[j] == x@;
            assert(v@[j]@ == x@);
        }
    }
    false
}

/// A copy of a string with the same text.
fn copy_text(s: &str) -> (r: String)
    ensures
        r@ == s@,
{
    let mut r = String::new();
    push_text(&mut r, s);
    assert(r@ =~= s@);
    r
}

/// The name "Default (default)".
fn make_discovered_default_label() -> (r: String)
    ensures
        r@ == discovered_default_label(),
{
    let mut s = make_default_label();
    push_char(&mut s, ' ');
    push_char(&mut s, '(');
    proof {
        reveal_strlit("default");
    }
    push_text(&mut s, "default");
    push_char(&mut s, ')');
    assert(s@ =~= discovered_default_label());
    s
}

impl DeviceDiscovery {
    /// The hardware ids seen so far.
    pub closed spec fn known_ids(&self) -> Seq<Seq<char>> {
        texts(self.known@)
    }

    /// A discovery that has seen nothing yet.
    pub fn new() -> (d: DeviceDiscovery)
        ensures
            d.known_ids() == Seq::<Seq<char>>::empty(),
    {
        let d = DeviceDiscovery { known: Vec::new() };
        assert(d.known_ids() =~= Seq::<Seq<char>>::empty());
        d
    }

    /// One step of discovery over `h`, updating the known ids: the name to
    /// open it under, if any.
    fn step(&mut self, h: &DeviceHint, playback: bool) -> (r: Option<String>)
        requires
            spec_discover_needs(old(self).known_ids(), *h) ==> h.description is Some,
        ensures
            ({
                let (label, k) = spec_discover_step(old(self).known_ids(), *h, playback);
                &&& final(self).known_ids() == k
                &&& r matches Some(s) ==> label == Some(s@)
                &&& r is None ==> label is None
            }),
    {
        match &h.id {
            None => None,
            Some(x) => {
                let skip = is_sysdefault(x.as_str()) || is_null(x.as_str()) || is_default(
                    x.as_str(),
                );
                if skip || holds_text(&self.known, x.as_str()) {
                    None
                } else {
                    self.known.push(copy_text(x.as_str()));
                    assert(self.known_ids() =~= old(self).known_ids().push(x@));
                    let wanted = (!playback && is_input(h.io)) || (playback && is_output(h.io));
                    match &h.description {
                        None => None,
                        Some(d) => match first_line(d.as_str()) {
                            None => None,
                            Some(mut l) => {
                                if wanted {
                                    let ghost first = l@;
                                    push_char(&mut l, ' ');
                                    push_char(&mut l, '(');
                                    push_text(&mut l, x.as_str());
                                    push_char(&mut l, ')');
                                    assert(l@ =~= first + seq![' ', '('] + x@ + seq![')']);
                                    Some(l)
                                } else {
                                    None
                                }
                            },
                        },
                    }
                }
            },
        }
    }

    /// A discovery that knows the same ids.
    fn duplicate(&self) -> (d: DeviceDiscovery)
        ensures
            d.known_ids() == self.known_ids(),
    {
        let mut scratch = DeviceDiscovery { known: Vec::new() };
        let mut j: usize = 0;
        while j < self.known.len()
            invariant
                j <= self.known@.len(),
                scratch.known_ids() == self.known_ids().take(j as int),
            decreases self.known@.len() - j,
        {
            let t = copy_text(self.known[j].as_str());
            assert(t@ == self.known@[j as int]@);
            let ghost before = scratch.known@;
            scratch.known.push(t);
            assert(scratch.known@ == before.push(t));
            assert(texts(scratch.known@) =~= texts(before).push(t@));
            assert(self.known_ids().take(j + 1) =~= self.known_ids().take(j as int).push(
                self.known@[j as int]@,
            ));
            j = j + 1;
        }
        assert(scratch.known_ids() =~= self.known_ids());
        scratch
    }

    /// Run the steps of discovery over all of `hints`: which to open, and the
    /// entries made of those that were opened.
    fn run(&mut self, hints: &Vec<DeviceHint>, playback: bool) -> (r: (Vec<bool>, Vec<DeviceEntry>))
        requires
            discover_descriptions_present(old(self).known_ids(), hints@, playback),
        ensures
            r.0@ == spec_discover(old(self).known_ids(), hints@, playback).0,
            entries_view(r.1@) == spec_discover(old(self).known_ids(), hints@, playback).1,
            final(self).known_ids() == spec_discover(old(self).known_ids(), hints@, playback).2,
    {
        let ghost k0 = self.known_ids();
        assert(spec_discover(k0, hints@.take(0), playback) == (
            Seq::<bool>::empty(),
            Seq::<(Seq<char>, u8)>::empty(),
            k0,
        )) by {
            reveal_with_fuel(spec_discover, 1);
        }
        let mut plan: Vec<bool> = Vec::new();
        let mut found: Vec<DeviceEntry> = Vec::new();
        let mut i: usize = 0;
        while i < hints.len()
            invariant
                i <= hints@.len(),
                discover_descriptions_present(k0, hints@, playback),
                self.known_ids() == spec_discover(k0, hints@.take(i as int), playback).2,
                plan@ == spec_discover(k0, hints@.take(i as int), playback).0,
                entries_view(found@) == spec_discover(k0, hints@.take(i as int), playback).1,
            decreases hints@.len() - i,
        {
            assert(hints@.take(i + 1).drop_last() =~= hints@.take(i as int));
            assert(hints@.take(i + 1).last() == hints@[i as int]);
            let ghost (p0, e0, k_before) = spec_discover(k0, hints@.take(i as int), playback);
            let h = &hints[i];
            assert(spec_discover_needs(k_before, hints@[i as int]) ==> h.description is Some);
            let ghost step = spec_discover_step(k_before, hints@[i as int], playback);
            assert(spec_discover(k0, hints@.take(i + 1), playback) == ({
                let plan2 = p0.push(step.0 is Some);
                match step.0 {
                    Some(l) => match hints@[i as int].opened {
                        Some(m) => (plan2, e0.push((l, m)), step.1),
                        None => (plan2, e0, step.1),
                    },
                    None => (plan2, e0, step.1),
                }
            })) by {
                reveal_with_fuel(spec_discover, 1);
            }
            let label = self.step(h, playback);
            plan.push(label.is_some());
            let ghost before = found@;
            match label {
                Some(name) => match h.opened {
                    Some(m) => {
                        let e = DeviceEntry { name, supported: m };
                        found.push(e);
                        assert(entries_view(found@) =~= entries_view(before).push(entry_view(e)));
                    },
                    None => {},
                },
                None => {},
            }
            i = i + 1;
        }
        assert(hints@.take(hints@.len() as int) =~= hints@);
        (plan, found)
    }

    /// Which devices one round of discovery over `hints` opens: the default
    /// device (first component) and each hint (second component, in order).
    /// The caller opens exactly these for the direction (`playback` or
    /// capture) and records the outcomes.
    pub fn to_open(&self, hints: &Vec<DeviceHint>, playback: bool) -> (r: (bool, Vec<bool>))
        requires
            discover_descriptions_present(
                known_after_default(self.known_ids()),
                hints@,
                playback,
            ),
        ensures
            r.0 == !self.known_ids().contains(default_text()),
            r.1@ == spec_discover(known_after_default(self.known_ids()), hints@, playback).0,
    {
        let mut scratch = self.duplicate();
        let with_default = scratch.admit_default();
        let (plan, _found) = scratch.run(hints, playback);
        (with_default, plan)
    }

    /// Whether discovery with the known ids `self.known` reads the
    /// description of `h`: when its id is new and not skipped.
    fn needs_description(&self, h: &DeviceHint) -> (r: bool)
        ensures
            r == spec_discover_needs(self.known_ids(), *h),
    {
        match &h.id {
            None => false,
            Some(x) => {
                let skip = is_sysdefault(x.as_str()) || is_null(x.as_str()) || is_default(
                    x.as_str(),
                );
                !skip && !holds_text(&self.known, x.as_str())
            },
        }
    }

    /// Whether one round of discovery over `hints` finds a description
    /// wherever it reads one, which [`DeviceDiscovery::to_open`] and
    /// [`DeviceDiscovery::devices`] need.
    pub fn descriptions_present(&self, hints: &Vec<DeviceHint>, playback: bool) -> (r: bool)
        ensures
            r == discover_descriptions_present(
                known_after_default(self.known_ids()),
                hints@,
                playback,
            ),
    {
        let mut scratch = self.duplicate();
        let _ = scratch.admit_default();
        let ghost k0 = scratch.known_ids();
        assert(spec_discover(k0, hints@.take(0), playback).2 == k0) by {
            reveal_with_fuel(spec_discover, 1);
        }
        let mut i: usize = 0;
        while i < hints.len()
            invariant
                i <= hints@.len(),
                k0 == known_after_default(self.known_ids()),
                scratch.known_ids() == spec_discover(k0, hints@.take(i as int), playback).2,
                forall|j: int|
                    0 <= j < i && spec_discover_needs(
                        spec_discover(k0, hints@.take(j), playback).2,
                        #[trigger] hints@[j],
                    ) ==> hints@[j].description is Some,
            decreases hints@.len() - i,
        {
            let h = &hints[i];
            let needs = scratch.needs_description(h);
            if needs && h.description.is_none() {
                assert(spec_discover_needs(
                    spec_discover(k0, hints@.take(i as int), playback).2,
                    hints@[i as int],
                ) && hints@[i as int].description is None);
                return false;
            }
            assert(hints@.take(i + 1).drop_last() =~= hints@.take(i as int));
            assert(hints@.take(i + 1).last() == hints@[i as int]);
            assert(spec_discover(k0, hints@.take(i + 1), playback).2 == spec_discover_step(
                spec_discover(k0, hints@.take(i as int), playback).2,
                hints@[i as int],
                playback,
            ).1) by {
                reveal_with_fuel(spec_discover, 1);
            }
            let _ = scratch.step(h, playback);
            i = i + 1;
        }
        assert(hints@.take(hints@.len() as int) =~= hints@);
        true
    }

    /// Consider the default device: whether it is new (and is now known).
    fn admit_default(&mut self) -> (r: bool)
        ensures
            r == !old(self).known_ids().contains(default_text()),
            final(self).known_ids() == known_after_default(old(self).known_ids()),
    {
        proof {
            reveal_strlit("default");
        }
        assert("default"@ =~= default_text());
        if holds_text(&self.known, "default") {
            false
        } else {
            let t = copy_text("default");
            let ghost before = self.known@;
            self.known.push(t);
            assert(texts(self.known@) =~= texts(before).push(default_text()));
            true
        }
    }

    /// One round of discovery: the devices of one direction (`playback` or
    /// capture) not reported before, newest first.  `default_opened` and the
    /// `opened` field of each hint hold the outcomes of opening the devices
    /// that [`DeviceDiscovery::to_open`] named.
    pub fn devices(
        &mut self,
        playback: bool,
        default_opened: Option<u8>,
        hints: &Vec<DeviceHint>,
    ) -> (r: Vec<DeviceEntry>)
        requires
            discover_descriptions_present(
                known_after_default(old(self).known_ids()),
                hints@,
                playback,
            ),
        ensures
            entries_view(r@) == spec_discovered(
                old(self).known_ids(),
                default_opened,
                hints@,
                playback,
            ),
            final(self).known_ids() == spec_discover(
                known_after_default(old(self).known_ids()),
                hints@,
                playback,
            ).2,
    {
        let mut found: Vec<DeviceEntry> = Vec::new();
        let is_new = self.admit_default();
        if is_new {
            match default_opened {
                Some(m) => {
                    found.push(DeviceEntry { name: make_discovered_default_label(), supported: m });
                },
                None => {},
            }
        }
        let ghost first = entries_view(found@);
        let (_plan, mut rest) = self.run(hints, playback);
        let ghost rest_view = entries_view(rest@);
        found.append(&mut rest);
        assert(entries_view(found@) =~= first + rest_view);
        reversed(found)
    }
}

/// The entries in reverse order.
fn reversed(v: Vec<DeviceEntry>) -> (r: Vec<DeviceEntry>)
    ensures
        entries_view(r@) == entries_view(v@).reverse(),
{
    let ghost all = v@;
    let mut found = v;
    let mut out: Vec<DeviceEntry> = Vec::new();
    while found.len() > 0
        invariant
            found@.len() <= all.len(),
            found@ == all.subrange(0, found@.len() as int),
            out@ == all.subrange(found@.len() as int, all.len() as int).reverse(),
        decreases found@.len(),
    {
        let e = found.pop().unwrap();
        out.push(e);
        assert(out@ =~= all.subrange(found@.len() as int, all.len() as int).reverse());
    }
    assert(out@ =~= all.reverse());
    assert(entries_view(out@) =~= entries_view(all).reverse());
    out
}

/// Discovery never forgets an id, and it plans one decision per hint.
pub proof fn lemma_discover_grows(known: Seq<Seq<char>>, hs: Seq<DeviceHint>, playback: bool)
    ensures
        spec_discover(known, hs, playback).0.len() == hs.len(),
        forall|x: Seq<char>| known.contains(x) ==> spec_discover(known, hs, playback).2.contains(x),
    decreases hs.len(),
{
    reveal_with_fuel(spec_discover, 1);
    if hs.len() > 0 {
        lemma_discover_grows(known, hs.drop_last(), playback);
        let k = spec_discover(known, hs.drop_last(), playback).2;
        assert forall|x: Seq<char>| known.contains(x) implies spec_discover(
            known,
            hs,
            playback,
        ).2.contains(x) by {
            assert(k.contains(x));
            if spec_discover_needs(k, hs.last()) {
                let j = choose|j: int| 0 <= j < k.len() && k[j] == x;
                assert(k.push(hs.last().id.unwrap()@)[j] == x);
            }
        }
    }
}

/// The decision of discovery on the hint at `i` is the step taken with the ids
/// known after the hints before it.
pub proof fn lemma_discover_decision(
    known: Seq<Seq<char>>,
    hs: Seq<DeviceHint>,
    playback: bool,
    i: int,
)
    requires
        0 <= i < hs.len(),
    ensures
        spec_discover(known, hs, playback).0[i] == spec_discover_step(
            spec_discover(known, hs.take(i), playback).2,
            hs[i],
            playback,
        ).0 is Some,
        spec_discover(known, hs, playback).0[i] ==> hs[i].id is Some
            && spec_discover(known, hs, playback).2.contains(hs[i].id.unwrap()@)
            && !spec_discover(known, hs.take(i), playback).2.contains(hs[i].id.unwrap()@),
    decreases hs.len(),
{
    reveal_with_fuel(spec_discover, 1);
    lemma_discover_grows(known, hs.drop_last(), playback);
    if i == hs.len() - 1 {
        assert(hs.take(i) =~= hs.drop_last());
        let k = spec_discover(known, hs.drop_last(), playback).2;
        if spec_discover_needs(k, hs.last()) {
            assert(k.push(hs.last().id.unwrap()@)[k.len() as int] == hs.last().id.unwrap()@);
        }
    } else {
        lemma_discover_decision(known, hs.drop_last(), playback, i);
        assert(hs.drop_last().take(i) =~= hs.take(i));
        let k = spec_discover(known, hs.drop_last(), playback).2;
        lemma_discover_grows(k, seq![hs.last()], playback);
        let (label, k2) = spec_discover_step(k, hs.last(), playback);
        if spec_discover(known, hs, playback).0[i] {
            let x = hs[i].id.unwrap()@;
            assert(k.contains(x));
            if spec_discover_needs(k, hs.last()) {
                let j = choose|j: int| 0 <= j < k.len() && k[j] == x;
                assert(k2[j] == x);
            }
        }
    }
}

/// A hardware id is reported at most once: a device that one round of
/// discovery decided to open is never opened again by the next round.
pub proof fn lemma_discovered_once(
    known: Seq<Seq<char>>,
    first: Seq<DeviceHint>,
    second: Seq<DeviceHint>,
    first_playback: bool,
    second_playback: bool,
    i: int,
    j: int,
)
    requires
        0 <= i < first.len(),
        0 <= j < second.len(),
        spec_discover(known, first, first_playback).0[i],
        spec_discover(spec_discover(known, first, first_playback).2, second, second_playback).0[j],
    ensures
        first[i].id is Some,
        second[j].id is Some,
        first[i].id.unwrap()@ != second[j].id.unwrap()@,
{
    let k1 = spec_discover(known, first, first_playback).2;
    lemma_discover_decision(known, first, first_playback, i);
    lemma_discover_decision(k1, second, second_playback, j);
    lemma_discover_grows(k1, second.take(j), second_playback);
}


/// The default device is reported at most once: after any round of
/// discovery it is known, so no later round opens or reports it again.
pub proof fn lemma_default_discovered_once(
    known: Seq<Seq<char>>,
    hs: Seq<DeviceHint>,
    playback: bool,
)
    ensures
        spec_discover(known_after_default(known), hs, playback).2.contains(default_text()),
        known_after_default(spec_discover(known_after_default(known), hs, playback).2)
            == spec_discover(known_after_default(known), hs, playback).2,
{
    let k = known_after_default(known);
    if !known.contains(default_text()) {
        assert(k[known.len() as int] == default_text());
    }
    assert(k.contains(default_text()));
    lemma_discover_grows(k, hs, playback);
}


/// Over a whole listing, the native backend's rules keep exactly the devices
/// that pass them: each listed entry is the entry of some hint (whose id is
/// not `sysdefault`, `null` or `default`, whose direction fits and which
/// could be opened), and each such hint's entry is listed.
pub proof fn lemma_query_devices_filter(hs: Seq<DeviceHint>, input: bool)
    ensures
        forall|k: int|
            0 <= k < spec_query_devices(hs, input).len() ==> exists|i: int|
                0 <= i < hs.len() && #[trigger] spec_query_entry(hs[i], input) == Some(
                    #[trigger] spec_query_devices(hs, input)[k],
                ),
        forall|i: int|
            0 <= i < hs.len() && (#[trigger] spec_query_entry(hs[i], input)) is Some ==> spec_query_devices(
                hs,
                input,
            ).contains(spec_query_entry(hs[i], input).unwrap()),
        spec_query_devices(hs, input).len() <= hs.len(),
    decreases hs.len(),
{
    if hs.len() > 0 {
        let init = hs.drop_last();
        lemma_query_devices_filter(init, input);
        let rest = spec_query_devices(init, input);
        let all = spec_query_devices(hs, input);
        assert forall|k: int| 0 <= k < all.len() implies exists|i: int|
            0 <= i < hs.len() && #[trigger] spec_query_entry(hs[i], input) == Some(
                #[trigger] all[k],
            ) by {
            if k < rest.len() {
                let i = choose|i: int|
                    0 <= i < init.len() && #[trigger] spec_query_entry(init[i], input) == Some(
                        rest[k],
                    );
                assert(hs[i] == init[i]);
                assert(all[k] == rest[k]);
            } else {
                assert(spec_query_entry(hs[hs.len() - 1], input) == Some(all[k]));
            }
        }
        assert forall|i: int|
            0 <= i < hs.len() && (#[trigger] spec_query_entry(hs[i], input)) is Some implies all.contains(
                spec_query_entry(hs[i], input).unwrap(),
            ) by {
            if i < hs.len() - 1 {
                assert(hs[i] == init[i]);
                let e = spec_query_entry(init[i], input).unwrap();
                assert(rest.contains(e));
                let k = choose|k: int| 0 <= k < rest.len() && rest[k] == e;
                assert(all[k] == e);
            } else {
                let e = spec_query_entry(hs[i], input).unwrap();
                assert(all[all.len() - 1] == e);
            }
        }
    }
}


/// Whether a hardware id is one that discovery leaves out whatever else holds:
/// one that begins with `sysdefault`, or is `null` or `default`.
pub open spec fn ignored_id(x: Seq<char>) -> bool {
    (x.len() >= 10 && x.take(10) == seq!['s', 'y', 's', 'd', 'e', 'f', 'a', 'u', 'l', 't'])
        || x == seq!['n', 'u', 'l', 'l'] || x == seq!['d', 'e', 'f', 'a', 'u', 'l', 't']
}

proof fn lemma_ignored_is_skipped(x: Seq<char>)
    ensures
        ignored_id(x) == spec_discover_skips(x),
{
    assert(sysdefault_text() =~= seq!['s', 'y', 's', 'd', 'e', 'f', 'a', 'u', 'l', 't']);
    assert(null_text() =~= seq!['n', 'u', 'l', 'l']);
    assert(default_text() =~= seq!['d', 'e', 'f', 'a', 'u', 'l', 't']);
}

/// The ids that discovery knows after a run over `hs`: those it knew, and
/// the id of every hint that it does not leave out.
proof fn lemma_discover_known(known: Seq<Seq<char>>, hs: Seq<DeviceHint>, playback: bool)
    ensures
        forall|x: Seq<char>|
            #[trigger] spec_discover(known, hs, playback).2.contains(x) <==> (known.contains(x)
                || exists|j: int|
                0 <= j < hs.len() && (#[trigger] hs[j].id) is Some && hs[j].id.unwrap()@ == x
                    && !spec_discover_skips(x)),
    decreases hs.len(),
{
    reveal_with_fuel(spec_discover, 1);
    if hs.len() > 0 {
        let init = hs.drop_last();
        lemma_discover_known(known, init, playback);
        let k = spec_discover(known, init, playback).2;
        let h = hs.last();
        let k2 = spec_discover(known, hs, playback).2;
        assert(k2 == spec_discover_step(k, h, playback).1);
        assert forall|x: Seq<char>| #[trigger] k2.contains(x) <==> (known.contains(x) || exists|
            j: int|
            0 <= j < hs.len() && (#[trigger] hs[j].id) is Some && hs[j].id.unwrap()@ == x
                && !spec_discover_skips(x)) by {
            if k2.contains(x) {
                if k.contains(x) {
                    if !known.contains(x) {
                        let j = choose|j: int|
                            0 <= j < init.len() && (#[trigger] init[j].id) is Some
                                && init[j].id.unwrap()@ == x && !spec_discover_skips(x);
                        assert(hs[j] == init[j]);
                    }
                } else {
                    assert(spec_discover_needs(k, h));
                    let i = k2.len() - 1;
                    assert(k2 == k.push(h.id.unwrap()@));
                    let w = choose|w: int| 0 <= w < k2.len() && k2[w] == x;
                    if w < k.len() {
                        assert(k.contains(x));
                    }
                    assert(hs[hs.len() - 1] == h);
                }
            }
            if known.contains(x) {
                assert(k.contains(x));
                if spec_discover_needs(k, h) {
                    let w = choose|w: int| 0 <= w < k.len() && k[w] == x;
                    assert(k.push(h.id.unwrap()@)[w] == x);
                }
            } else if exists|j: int|
                0 <= j < hs.len() && (#[trigger] hs[j].id) is Some && hs[j].id.unwrap()@ == x
                    && !spec_discover_skips(x) {
                let j = choose|j: int|
                    0 <= j < hs.len() && (#[trigger] hs[j].id) is Some && hs[j].id.unwrap()@ == x
                        && !spec_discover_skips(x);
                if j < hs.len() - 1 {
                    assert(init[j] == hs[j]);
                    assert(k.contains(x));
                    if spec_discover_needs(k, h) {
                        let w = choose|w: int| 0 <= w < k.len() && k[w] == x;
                        assert(k.push(h.id.unwrap()@)[w] == x);
                    }
                } else {
                    assert(hs[j] == h);
                    if !k.contains(x) {
                        assert(spec_discover_needs(k, h));
                        assert(k.push(x)[k.len() as int] == x);
                    }
                }
            }
        }
    }
}

/// Which hints one round of discovery opens (and so reports when they
/// open): exactly those with an id that is not left out (not beginning with
/// `sysdefault`, not `null`, not `default`), was not known before and
/// belongs to no earlier hint, with a description whose first line is not
/// empty text, and whose direction fits the round: a capture round takes
/// devices without an `IOID` or with one that starts with `I`, a playback
/// round those without one or with one that starts with `O`.
pub proof fn lemma_discover_opens_exactly(
    known: Seq<Seq<char>>,
    hs: Seq<DeviceHint>,
    playback: bool,
    i: int,
)
    requires
        0 <= i < hs.len(),
        hs[i].description is Some,
    ensures
        spec_discover(known, hs, playback).0[i] <==> ({
            &&& hs[i].id is Some
            &&& !ignored_id(hs[i].id.unwrap()@)
            &&& !known.contains(hs[i].id.unwrap()@)
            &&& forall|j: int|
                0 <= j < i ==> (#[trigger] hs[j].id) is None || hs[j].id.unwrap()@ != hs[i].id.unwrap()@
            &&& hs[i].description.unwrap()@.len() > 0
            &&& !playback ==> (hs[i].io is None || hs[i].io == Some(73u8))
            &&& playback ==> (hs[i].io is None || hs[i].io == Some(79u8))
        }),
{
    lemma_discover_decision(known, hs, playback, i);
    let k = spec_discover(known, hs.take(i), playback).2;
    lemma_discover_known(known, hs.take(i), playback);
    let h = hs[i];
    if h.id is Some {
        let x = h.id.unwrap()@;
        lemma_ignored_is_skipped(x);
        if !spec_discover_skips(x) {
            if k.contains(x) {
                if !known.contains(x) {
                    let j = choose|j: int|
                        0 <= j < hs.take(i).len() && (#[trigger] hs.take(i)[j].id) is Some
                            && hs.take(i)[j].id.unwrap()@ == x && !spec_discover_skips(x);
                    assert(hs.take(i)[j] == hs[j]);
                    assert(hs[j].id is Some && hs[j].id.unwrap()@ == x);
                }
            } else {
                assert forall|j: int|
                    0 <= j < i implies (#[trigger] hs[j].id) is None || hs[j].id.unwrap()@
                    != x by {
                    if hs[j].id is Some && hs[j].id.unwrap()@ == x {
                        assert(hs.take(i)[j] == hs[j]);
                        assert(k.contains(x));
                    }
                }
            }
        }
    }
}

/// A round of discovery never opens or reports a device whose id begins
/// with `sysdefault`, or is `null` or `default`, and never one of the wrong
/// direction: a capture round no device whose `IOID` starts with anything
/// but `I`, a playback round none whose `IOID` starts with anything but `O`.
pub proof fn lemma_discover_never_opens_ignored(
    known: Seq<Seq<char>>,
    hs: Seq<DeviceHint>,
    playback: bool,
    i: int,
)
    requires
        0 <= i < hs.len(),
        spec_discover(known, hs, playback).0[i],
    ensures
        hs[i].id is Some,
        !ignored_id(hs[i].id.unwrap()@),
        !playback ==> (hs[i].io is None || hs[i].io == Some(73u8)),
        playback ==> (hs[i].io is None || hs[i].io == Some(79u8)),
{
    lemma_discover_decision(known, hs, playback, i);
    lemma_ignored_is_skipped(hs[i].id.unwrap()@);
}

} // verus!
