//! Reading what `adb devices -l` and `adb mdns services` print, and the
//! device listing built from it.
//!
//! The first line of `adb devices -l` is a header. Every further line that
//! has at least two words names a device (first word) and its state (second
//! word), followed by `key:value` attributes such as `model:Pixel_5`.
//! Devices that ADB found over mDNS (their name holds `_adb-tls-connect`)
//! get a short display name, and are left out when a manual IP connection
//! (a name with a colon, in state `device`) to the same model exists.
//! Afterwards, paired devices advertised by `adb mdns services` that are not
//! listed yet are added as available.

use vstd::prelude::*;

use crate::device::{
    device_views, listed, names_distinct, AdbStatus, Device, DeviceView,
};
use crate::text::{
    chars_of, contains, contains_chars, lines, lines_of, same_chars, skip_chars, split_chars,
    split_on, starts_with, starts_with_chars, string_of, trim, trim_chars, views, words,
    words_of,
};

verus! {

// ---------------------------------------------------------------------
// Specification
// ---------------------------------------------------------------------

/// The value of a `key:value` attribute: the text between the first and the
/// second colon, or nothing when there is no colon.
pub open spec fn attribute_value(part: Seq<char>) -> Seq<char> {
    let pieces = split_on(part, ':');
    if pieces.len() > 1 {
        pieces[1]
    } else {
        Seq::empty()
    }
}

/// The model a device line announces: the value of its last `model:`
/// attribute, or nothing.
pub open spec fn announced_model(attrs: Seq<Seq<char>>) -> Seq<char>
    decreases attrs.len(),
{
    if attrs.len() == 0 {
        Seq::empty()
    } else if starts_with(attrs.last(), "model:"@) {
        attribute_value(attrs.last())
    } else {
        announced_model(attrs.drop_last())
    }
}

/// A line's words describe a device reached by a manual IP connection.
pub open spec fn is_manual_connection(p: Seq<Seq<char>>) -> bool {
    &&& p.len() >= 2
    &&& trim(p[0]).len() > 0
    &&& trim(p[1]) == "device"@
    &&& contains(trim(p[0]), ":"@)
}

/// A line's words announce model `m` for a manual IP connection.
pub open spec fn announces_manual_model(p: Seq<Seq<char>>, m: Seq<char>) -> bool {
    &&& is_manual_connection(p)
    &&& m.len() > 0
    &&& exists|j: int|
        2 <= j < p.len() && starts_with(p[j], "model:"@) && #[trigger] attribute_value(p[j]) == m
}

/// Some device line (after the header) of `ls` announces model `m` for a
/// manual IP connection.
pub open spec fn manual_model(ls: Seq<Seq<char>>, m: Seq<char>) -> bool {
    exists|k: int| 1 <= k < ls.len() && announces_manual_model(#[trigger] words(ls[k]), m)
}

/// The short name shown for a device found over mDNS: the serial at the
/// start of its service name, followed by ` (Wireless)`.
pub open spec fn wireless_name(name: Seq<char>) -> Seq<char> {
    let base = trim(split_on(name, '.')[0]);
    let base_words = words(base);
    let clean = if base_words.len() > 0 {
        base_words[0]
    } else {
        base
    };
    let bare = if starts_with(clean, "adb-"@) {
        clean.skip("adb-"@.len() as int)
    } else {
        clean
    };
    split_on(bare, '-')[0] + " (Wireless)"@
}

/// What the device line with words `p` contributes, before devices already
/// listed under the same name are dropped.
pub open spec fn line_device(ls: Seq<Seq<char>>, p: Seq<Seq<char>>) -> Option<DeviceView> {
    if p.len() < 2 || trim(p[0]).len() == 0 {
        None
    } else {
        let name = trim(p[0]);
        let model = announced_model(p.skip(2));
        let over_mdns = contains(name, "_adb-tls-connect"@);
        if over_mdns && model.len() > 0 && manual_model(ls, model) {
            None
        } else {
            Some(
                DeviceView {
                    name,
                    state: trim(p[1]),
                    display_name: if over_mdns {
                        wireless_name(name)
                    } else {
                        name
                    },
                    platform: "android"@,
                },
            )
        }
    }
}

/// `devs` with `d` added at the end, unless a device of that name is listed.
pub open spec fn add_unlisted(devs: Seq<DeviceView>, d: DeviceView) -> Seq<DeviceView> {
    if listed(devs, d.name) {
        devs
    } else {
        devs.push(d)
    }
}

/// The devices contributed by lines `1 .. k` of `ls`.
pub open spec fn connected_upto(ls: Seq<Seq<char>>, k: int) -> Seq<DeviceView>
    decreases k,
{
    if k <= 1 {
        Seq::empty()
    } else {
        let prev = connected_upto(ls, k - 1);
        match line_device(ls, words(ls[k - 1])) {
            Some(d) => add_unlisted(prev, d),
            None => prev,
        }
    }
}

/// The devices that `adb devices -l` printed as `out` lists.
pub open spec fn connected_devices(out: Seq<char>) -> Seq<DeviceView> {
    let ls = lines(out);
    connected_upto(ls, ls.len() as int)
}

/// The first of `parts` that holds a colon and names no listed device.
pub open spec fn first_new_address(devs: Seq<DeviceView>, parts: Seq<Seq<char>>) -> Option<
    Seq<char>,
>
    decreases parts.len(),
{
    if parts.len() == 0 {
        None
    } else if contains(parts[0], ":"@) && !listed(devs, parts[0]) {
        Some(parts[0])
    } else {
        first_new_address(devs, parts.drop_first())
    }
}

/// A paired device advertised at `address`.
pub open spec fn paired_device(address: Seq<char>) -> DeviceView {
    DeviceView {
        name: address,
        state: "available (paired)"@,
        display_name: address,
        platform: "android"@,
    }
}

/// `devs` after reading lines `0 .. k` of `adb mdns services`.
pub open spec fn with_paired_upto(devs: Seq<DeviceView>, ls: Seq<Seq<char>>, k: int) -> Seq<
    DeviceView,
>
    decreases k,
{
    if k <= 0 {
        devs
    } else {
        let prev = with_paired_upto(devs, ls, k - 1);
        let line = ls[k - 1];
        if contains(line, "_adb-tls-connect"@) {
            match first_new_address(prev, words(line)) {
                Some(a) => prev.push(paired_device(a)),
                None => prev,
            }
        } else {
            prev
        }
    }
}

/// `devs` with the paired devices that `adb mdns services` printed as `out`.
pub open spec fn with_paired(devs: Seq<DeviceView>, out: Seq<char>) -> Seq<DeviceView> {
    let ls = lines(out);
    with_paired_upto(devs, ls, ls.len() as int)
}

/// The Android devices found, given what `adb devices -l` printed (when it
/// ran) and what `adb mdns services` printed (when it ran).
pub open spec fn android_devices(devices_out: Option<Seq<char>>, mdns_out: Option<Seq<char>>) -> Seq<
    DeviceView,
> {
    match devices_out {
        None => Seq::empty(),
        Some(out) => {
            let connected = connected_devices(out);
            match mdns_out {
                Some(m) => with_paired(connected, m),
                None => connected,
            }
        },
    }
}

// ---------------------------------------------------------------------
// Reading the listings
// ---------------------------------------------------------------------

/// The value of the `key:value` attribute `part`.
fn attribute_value_of(part: &[char]) -> (v: Vec<char>)
    ensures
        v@ == attribute_value(part@),
{
    let pieces = split_chars(part, ':');
    if pieces.len() > 1 {
        pieces[1].clone()
    } else {
        Vec::new()
    }
}

/// The model announced by the attributes of the device line with words `p`.
fn announced_model_of(p: &Vec<Vec<char>>) -> (m: Vec<char>)
    requires
        p@.len() >= 2,
    ensures
        m@ == announced_model(views(p@).skip(2)),
{
    let model_key = chars_of("model:");
    let mut m: Vec<char> = Vec::new();
    let mut j: usize = 2;
    assert(views(p@).subrange(2, 2) =~= Seq::<Seq<char>>::empty());
    while j < p.len()
        invariant
            2 <= j <= p@.len(),
            model_key@ == "model:"@,
            m@ == announced_model(views(p@).subrange(2, j as int)),
        decreases p@.len() - j,
    {
        let ghost attrs = views(p@).subrange(2, j + 1);
        assert(attrs.drop_last() =~= views(p@).subrange(2, j as int));
        assert(attrs.last() == p@[j as int]@);
        if starts_with_chars(&p[j], &model_key) {
            m = attribute_value_of(&p[j]);
        }
        j = j + 1;
    }
    assert(views(p@).subrange(2, p@.len() as int) =~= views(p@).skip(2));
    m
}

/// Whether the device line with words `p` is a manual IP connection.
fn is_manual_connection_of(p: &Vec<Vec<char>>) -> (b: bool)
    ensures
        b == is_manual_connection(views(p@)),
{
    if p.len() < 2 {
        return false;
    }
    let name = trim_chars(&p[0]);
    let state = trim_chars(&p[1]);
    let device_word = chars_of("device");
    let colon = chars_of(":");
    name.len() > 0 && same_chars(&state, &device_word) && contains_chars(&name, &colon)
}

/// Whether the device line with words `p` announces model `m` for a manual
/// IP connection.
fn announces_manual_model_of(p: &Vec<Vec<char>>, m: &[char]) -> (b: bool)
    ensures
        b == announces_manual_model(views(p@), m@),
{
    if !is_manual_connection_of(p) || m.len() == 0 {
        return false;
    }
    let model_key = chars_of("model:");
    let mut j: usize = 2;
    while j < p.len()
        invariant
            2 <= j <= p@.len(),
            model_key@ == "model:"@,
            is_manual_connection(views(p@)),
            m@.len() > 0,
            forall|k: int|
                2 <= k < j ==> !(starts_with(views(p@)[k], "model:"@) && #[trigger] attribute_value(
                    views(p@)[k],
                ) == m@),
        decreases p@.len() - j,
    {
        if starts_with_chars(&p[j], &model_key) {
            let v = attribute_value_of(&p[j]);
            if same_chars(&v, m) {
                assert(attribute_value(views(p@)[j as int]) == m@);
                return true;
            }
        }
        j = j + 1;
    }
    false
}

/// Whether some device line of `ls` announces model `m` for a manual IP
/// connection.
fn manual_model_of(ls: &Vec<Vec<char>>, m: &[char]) -> (b: bool)
    ensures
        b == manual_model(views(ls@), m@),
{
    let mut k: usize = 1;
    while k < ls.len()
        invariant
            1 <= k,
            k <= ls@.len() || ls@.len() == 0,
            forall|i: int|
                1 <= i < k && i < ls@.len() ==> !announces_manual_model(
                    #[trigger] words(views(ls@)[i]),
                    m@,
                ),
        decreases ls@.len() - k,
    {
        let p = words_of(&ls[k]);
        if announces_manual_model_of(&p, m) {
            assert(words(views(ls@)[k as int]) == views(p@));
            return true;
        }
        assert(words(views(ls@)[k as int]) == views(p@));
        k = k + 1;
    }
    false
}

/// The short display name of a device found over mDNS.
fn wireless_name_of(name: &[char]) -> (r: Vec<char>)
    ensures
        r@ == wireless_name(name@),
{
    let dot_pieces = split_chars(name, '.');
    proof {
        crate::text::lemma_split_on_nonempty(name@, '.');
    }
    let base = trim_chars(&dot_pieces[0]);
    let base_words = words_of(&base);
    let clean = if base_words.len() > 0 {
        base_words[0].clone()
    } else {
        base
    };
    let prefix = chars_of("adb-");
    let bare = if starts_with_chars(&clean, &prefix) {
        skip_chars(&clean, prefix.len())
    } else {
        clean
    };
    let dash_pieces = split_chars(&bare, '-');
    proof {
        crate::text::lemma_split_on_nonempty(bare@, '-');
    }
    let mut r = dash_pieces[0].clone();
    let suffix = chars_of(" (Wireless)");
    let mut i: usize = 0;
    let ghost r0 = r@;
    while i < suffix.len()
        invariant
            i <= suffix@.len(),
            r@ == r0 + suffix@.take(i as int),
        decreases suffix@.len() - i,
    {
        r.push(suffix[i]);
        i = i + 1;
        assert(r@ =~= r0 + suffix@.take(i as int));
    }
    assert(suffix@.take(suffix@.len() as int) =~= suffix@);
    r
}

/// Whether a device named `name` is among `devs`.
fn listed_in(devs: &Vec<Device>, name: &[char]) -> (b: bool)
    ensures
        b == listed(device_views(devs@), name@),
{
    let mut i: usize = 0;
    while i < devs.len()
        invariant
            i <= devs@.len(),
            forall|k: int| 0 <= k < i ==> devs@[k].name@ != name@,
        decreases devs@.len() - i,
    {
        let d_name = chars_of(devs[i].name.as_str());
        if same_chars(&d_name, name) {
            assert(device_views(devs@)[i as int].name == name@);
            return true;
        }
        i = i + 1;
    }
    false
}

/// The device the line with words `p` contributes, if any.
fn line_device_of(ls: &Vec<Vec<char>>, p: &Vec<Vec<char>>) -> (d: Option<Device>)
    ensures
        match d {
            Some(dev) => line_device(views(ls@), views(p@)) == Some(dev@),
            None => line_device(views(ls@), views(p@)) is None,
        },
{
    if p.len() < 2 {
        return None;
    }
    let name = trim_chars(&p[0]);
    if name.len() == 0 {
        return None;
    }
    let model = announced_model_of(p);
    let marker = chars_of("_adb-tls-connect");
    let over_mdns = contains_chars(&name, &marker);
    if over_mdns && model.len() > 0 && manual_model_of(ls, &model) {
        return None;
    }
    let state = trim_chars(&p[1]);
    let display = if over_mdns {
        wireless_name_of(&name)
    } else {
        name.clone()
    };
    Some(
        Device {
            name: string_of(&name),
            state: string_of(&state),
            display_name: string_of(&display),
            platform: String::from_str("android"),
        },
    )
}

/// The devices listed by the output `out` of `adb devices -l`.
pub fn connected_devices_of(out: &str) -> (devs: Vec<Device>)
    ensures
        device_views(devs@) == connected_devices(out@),
{
    let text = chars_of(out);
    let ls = lines_of(&text);
    let mut devs: Vec<Device> = Vec::new();
    if ls.len() <= 1 {
        assert(device_views(devs@) =~= connected_upto(views(ls@), ls@.len() as int));
        return devs;
    }
    let mut k: usize = 1;
    assert(device_views(devs@) =~= connected_upto(views(ls@), 1));
    while k < ls.len()
        invariant
            1 <= k <= ls@.len(),
            device_views(devs@) == connected_upto(views(ls@), k as int),
        decreases ls@.len() - k,
    {
        let p = words_of(&ls[k]);
        assert(words(views(ls@)[k as int]) == views(p@));
        match line_device_of(&ls, &p) {
            Some(d) => {
                let name = chars_of(d.name.as_str());
                if !listed_in(&devs, &name) {
                    let ghost before = devs@;
                    devs.push(d);
                    assert(device_views(devs@) =~= device_views(before).push(d@));
                }
            },
            None => {},
        }
        k = k + 1;
    }
    devs
}

/// The first of `parts` that holds a colon and names no device of `devs`.
fn first_new_address_of(devs: &Vec<Device>, parts: &Vec<Vec<char>>) -> (a: Option<Vec<char>>)
    ensures
        match a {
            Some(v) => first_new_address(device_views(devs@), views(parts@)) == Some(v@),
            None => first_new_address(device_views(devs@), views(parts@)) is None,
        },
{
    let colon = chars_of(":");
    let mut i: usize = 0;
    assert(views(parts@).skip(0) =~= views(parts@));
    while i < parts.len()
        invariant
            i <= parts@.len(),
            colon@ == ":"@,
            first_new_address(device_views(devs@), views(parts@)) == first_new_address(
                device_views(devs@),
                views(parts@).skip(i as int),
            ),
        decreases parts@.len() - i,
    {
        let ghost rest = views(parts@).skip(i as int);
        assert(rest[0] == parts@[i as int]@);
        assert(rest.drop_first() =~= views(parts@).skip(i + 1));
        if contains_chars(&parts[i], &colon) && !listed_in(devs, &parts[i]) {
            return Some(parts[i].clone());
        }
        i = i + 1;
    }
    None
}

/// `devs` with the paired devices that the output `out` of
/// `adb mdns services` advertises.
pub fn with_paired_of(devs: Vec<Device>, out: &str) -> (r: Vec<Device>)
    ensures
        device_views(r@) == with_paired(device_views(devs@), out@),
{
    let text = chars_of(out);
    let ls = lines_of(&text);
    let marker = chars_of("_adb-tls-connect");
    let ghost start = device_views(devs@);
    let mut r = devs;
    let mut k: usize = 0;
    while k < ls.len()
        invariant
            k <= ls@.len(),
            marker@ == "_adb-tls-connect"@,
            device_views(r@) == with_paired_upto(start, views(ls@), k as int),
        decreases ls@.len() - k,
    {
        if contains_chars(&ls[k], &marker) {
            let parts = words_of(&ls[k]);
            assert(words(views(ls@)[k as int]) == views(parts@));
            match first_new_address_of(&r, &parts) {
                Some(a) => {
                    let ghost before = r@;
                    let name = string_of(&a);
                    let dev = Device {
                        display_name: name.clone(),
                        name,
                        state: String::from_str("available (paired)"),
                        platform: String::from_str("android"),
                    };
                    r.push(dev);
                    assert(device_views(r@) =~= device_views(before).push(paired_device(a@)));
                },
                None => {},
            }
        }
        k = k + 1;
    }
    r
}

/// The Android devices found, given the output of `adb devices -l` (when
/// it ran) and of `adb mdns services` (when it ran).
pub fn android_devices_of(devices_out: Option<&str>, mdns_out: Option<&str>) -> (r: Vec<Device>)
    ensures
        device_views(r@) == android_devices(
            match devices_out {
                Some(o) => Some(o@),
                None => None,
            },
            match mdns_out {
                Some(m) => Some(m@),
                None => None,
            },
        ),
{
    match devices_out {
        None => {
            let r: Vec<Device> = Vec::new();
            assert(device_views(r@) =~= Seq::<DeviceView>::empty());
            r
        },
        Some(out) => {
            let connected = connected_devices_of(out);
            match mdns_out {
                Some(m) => with_paired_of(connected, m),
                None => connected,
            }
        },
    }
}

/// The status shown to the user: whether ADB or the simulator tools are
/// there, the Android devices, then the simulators.
///
/// `adb_found` says whether the ADB binary was found; the outputs are those
/// of `adb devices -l` and `adb mdns services` where the commands ran (the
/// second only runs after the first). `has_simctl` says whether the
/// simulator tools are there.
pub fn adb_status(
    adb_found: bool,
    devices_out: Option<&str>,
    mdns_out: Option<&str>,
    ios_sims: Vec<Device>,
    has_simctl: bool,
) -> (r: AdbStatus)
    ensures
        r.installed == (adb_found || has_simctl),
        device_views(r.devices@) == (if adb_found {
            android_devices(
                match devices_out {
                    Some(o) => Some(o@),
                    None => None,
                },
                match mdns_out {
                    Some(m) => Some(m@),
                    None => None,
                },
            )
        } else {
            Seq::<DeviceView>::empty()
        }) + device_views(ios_sims@),
{
    let mut devices: Vec<Device> = if adb_found {
        android_devices_of(devices_out, mdns_out)
    } else {
        Vec::new()
    };
    let mut sims = ios_sims;
    let ghost before = devices@;
    let ghost added = sims@;
    devices.append(&mut sims);
    assert(device_views(devices@) =~= device_views(before) + device_views(added));
    AdbStatus { installed: adb_found || has_simctl, devices }
}

/// The text of a command's output stream.
pub open spec fn output_text(bytes: Option<Seq<u8>>) -> Option<Seq<char>> {
    match bytes {
        Some(b) => Some(crate::text::decode_lossy(b)),
        None => None,
    }
}

/// The status shown to the user, from the raw standard output of
/// `adb devices -l` and `adb mdns services` (each present when the command
/// ran); see [`adb_status`].
pub fn get_adb_status(
    adb_found: bool,
    devices_stdout: Option<Vec<u8>>,
    mdns_stdout: Option<Vec<u8>>,
    ios_sims: Vec<Device>,
    has_simctl: bool,
) -> (r: AdbStatus)
    ensures
        r.installed == (adb_found || has_simctl),
        device_views(r.devices@) == (if adb_found {
            android_devices(
                output_text(
                    match devices_stdout {
                        Some(b) => Some(b@),
                        None => None,
                    },
                ),
                output_text(
                    match mdns_stdout {
                        Some(b) => Some(b@),
                        None => None,
                    },
                ),
            )
        } else {
            Seq::<DeviceView>::empty()
        }) + device_views(ios_sims@),
{
    let devices_text = match devices_stdout {
        Some(b) => Some(crate::text::utf8_lossy(b.as_slice())),
        None => None,
    };
    let mdns_text = match mdns_stdout {
        Some(b) => Some(crate::text::utf8_lossy(b.as_slice())),
        None => None,
    };
    let devices_ref = match &devices_text {
        Some(t) => Some(t.as_str()),
        None => None,
    };
    let mdns_ref = match &mdns_text {
        Some(t) => Some(t.as_str()),
        None => None,
    };
    adb_status(adb_found, devices_ref, mdns_ref, ios_sims, has_simctl)
}

// ---------------------------------------------------------------------
// Laws
// ---------------------------------------------------------------------

proof fn lemma_connected_upto(ls: Seq<Seq<char>>, k: int)
    ensures
        names_distinct(connected_upto(ls, k)),
        forall|i: int|
            #![trigger connected_upto(ls, k)[i]]
            0 <= i < connected_upto(ls, k).len() ==> exists|j: int|
                1 <= j < k && line_device(ls, #[trigger] words(ls[j])) == Some(
                    connected_upto(ls, k)[i],
                ),
    decreases k,
{
    if k > 1 {
        lemma_connected_upto(ls, k - 1);
        let prev = connected_upto(ls, k - 1);
        let cur = connected_upto(ls, k);
        assert forall|i: int| #![trigger cur[i]] 0 <= i < cur.len() implies exists|j: int|
            1 <= j < k && line_device(ls, #[trigger] words(ls[j])) == Some(cur[i]) by {
            if i < prev.len() {
                let j = choose|j: int|
                    1 <= j < k - 1 && line_device(ls, #[trigger] words(ls[j])) == Some(prev[i]);
                assert(cur[i] == prev[i]);
                assert(1 <= j < k && line_device(ls, words(ls[j])) == Some(cur[i]));
            } else {
                assert(line_device(ls, words(ls[k - 1])) == Some(cur[i]));
            }
        }
    }
}

/// No two devices listed from `adb devices -l` share a name: a line naming
/// a device that is already listed adds nothing.
pub proof fn lemma_connected_names_distinct(out: Seq<char>)
    ensures
        names_distinct(connected_devices(out)),
{
    lemma_connected_upto(lines(out), lines(out).len() as int);
}

/// The device line with words `p` names `d` under its first word and state,
/// and is not the line of a device found over mDNS whose model is also
/// reached by a manual IP connection (per the device lines `ls`).
pub open spec fn names_device(ls: Seq<Seq<char>>, p: Seq<Seq<char>>, d: DeviceView) -> bool {
    &&& p.len() >= 2
    &&& d.name == trim(p[0])
    &&& d.state == trim(p[1])
    &&& d.platform == "android"@
    &&& !(contains(d.name, "_adb-tls-connect"@) && announced_model(p.skip(2)).len() > 0
        && manual_model(ls, announced_model(p.skip(2))))
}

/// Every device listed from `adb devices -l` is the one some device line
/// names, and none comes from the line of a device found over mDNS whose
/// model is also reached by a manual IP connection.
pub proof fn lemma_connected_from_lines(out: Seq<char>)
    ensures
        forall|i: int|
            #![trigger connected_devices(out)[i]]
            0 <= i < connected_devices(out).len() ==> exists|k: int|
                1 <= k < lines(out).len() && names_device(
                    lines(out),
                    #[trigger] words(lines(out)[k]),
                    connected_devices(out)[i],
                ),
{
    let ls = lines(out);
    lemma_connected_upto(ls, ls.len() as int);
    assert forall|i: int|
        #![trigger connected_devices(out)[i]]
        0 <= i < connected_devices(out).len() implies exists|k: int|
        1 <= k < lines(out).len() && names_device(
            lines(out),
            #[trigger] words(lines(out)[k]),
            connected_devices(out)[i],
        ) by {
        let k = choose|k: int|
            1 <= k < ls.len() && line_device(ls, #[trigger] words(ls[k])) == Some(
                connected_devices(out)[i],
            );
        assert(line_device(ls, words(ls[k])) == Some(connected_devices(out)[i]));
        assert(names_device(ls, words(ls[k]), connected_devices(out)[i]));
    }
}

/// The device line with words `p` (of the lines `ls`) is one the listing
/// shows: it has a name and a state word, whatever that state is, and it
/// is not the line of a device found over mDNS whose announced model is also
/// announced by a manual IP connection.
pub open spec fn shown_line(ls: Seq<Seq<char>>, p: Seq<Seq<char>>) -> bool {
    &&& p.len() >= 2
    &&& trim(p[0]).len() > 0
    &&& !(contains(trim(p[0]), "_adb-tls-connect"@) && announced_model(p.skip(2)).len() > 0
        && manual_model(ls, announced_model(p.skip(2))))
}

proof fn lemma_connected_first(ls: Seq<Seq<char>>, k: int)
    ensures
        forall|j: int|
            1 <= j < k && #[trigger] shown_line(ls, words(ls[j])) ==> listed(
                connected_upto(ls, k),
                trim(words(ls[j])[0]),
            ),
        forall|i: int|
            #![trigger connected_upto(ls, k)[i]]
            0 <= i < connected_upto(ls, k).len() ==> exists|j: int|
                1 <= j < k && line_device(ls, #[trigger] words(ls[j])) == Some(
                    connected_upto(ls, k)[i],
                ) && forall|j2: int|
                    1 <= j2 < j && #[trigger] shown_line(ls, words(ls[j2])) ==> trim(
                        words(ls[j2])[0],
                    ) != connected_upto(ls, k)[i].name,
    decreases k,
{
    if k > 1 {
        lemma_connected_first(ls, k - 1);
        let prev = connected_upto(ls, k - 1);
        let cur = connected_upto(ls, k);
        let p = words(ls[k - 1]);
        assert(cur.len() >= prev.len());
        assert forall|i: int| 0 <= i < prev.len() implies cur[i] == prev[i] by {
            match line_device(ls, p) {
                Some(d) => {
                    if !listed(prev, d.name) {
                        assert(cur == prev.push(d));
                    }
                },
                None => {},
            }
        }
        assert forall|j: int|
            1 <= j < k && #[trigger] shown_line(ls, words(ls[j])) implies listed(
            cur,
            trim(words(ls[j])[0]),
        ) by {
            if j < k - 1 {
                let n = trim(words(ls[j])[0]);
                let i = choose|i: int| 0 <= i < prev.len() && prev[i].name == n;
                assert(cur[i] == prev[i]);
            } else {
                let d = line_device(ls, p).unwrap();
                if !listed(prev, d.name) {
                    assert(cur == prev.push(d));
                    assert(cur[prev.len() as int] == d);
                } else {
                    let i = choose|i: int| 0 <= i < prev.len() && prev[i].name == d.name;
                    assert(cur[i] == prev[i]);
                }
            }
        }
        assert forall|i: int| #![trigger cur[i]] 0 <= i < cur.len() implies exists|j: int|
            1 <= j < k && line_device(ls, #[trigger] words(ls[j])) == Some(cur[i]) && forall|
                j2: int,
            |
                1 <= j2 < j && #[trigger] shown_line(ls, words(ls[j2])) ==> trim(words(ls[j2])[0])
                    != cur[i].name by {
            if i < prev.len() {
                assert(cur[i] == prev[i]);
                let j = choose|j: int|
                    1 <= j < k - 1 && line_device(ls, #[trigger] words(ls[j])) == Some(prev[i])
                        && forall|j2: int|
                        1 <= j2 < j && #[trigger] shown_line(ls, words(ls[j2])) ==> trim(
                            words(ls[j2])[0],
                        ) != prev[i].name;
                assert(1 <= j < k && line_device(ls, words(ls[j])) == Some(cur[i]));
            } else {
                let d = line_device(ls, p).unwrap();
                assert(!listed(prev, d.name));
                assert(cur == prev.push(d));
                assert(cur[i] == d);
                assert forall|j2: int| 1 <= j2 < k - 1 && #[trigger] shown_line(ls, words(ls[j2]))
                    implies trim(words(ls[j2])[0]) != cur[i].name by {
                    assert(listed(prev, trim(words(ls[j2])[0])));
                }
                assert(line_device(ls, words(ls[k - 1])) == Some(cur[i]));
            }
        }
    }
}

/// The device `d` comes from line `k` of the lines `ls` of `adb devices -l`:
/// a shown line giving its name, state and display name, and the first
/// shown line with that name.
pub open spec fn first_line_of(ls: Seq<Seq<char>>, k: int, d: DeviceView) -> bool {
    let p = words(ls[k]);
    &&& 1 <= k < ls.len()
    &&& shown_line(ls, p)
    &&& d.name == trim(p[0])
    &&& d.state == trim(p[1])
    &&& d.display_name == (if contains(d.name, "_adb-tls-connect"@) {
        wireless_name(d.name)
    } else {
        d.name
    })
    &&& d.platform == "android"@
    &&& forall|j: int|
        1 <= j < k && #[trigger] shown_line(ls, words(ls[j])) ==> trim(words(ls[j])[0]) != d.name
}

/// The device `d` comes from the first shown line of `ls` that names it.
pub open spec fn from_first_line(ls: Seq<Seq<char>>, d: DeviceView) -> bool {
    exists|k: int| #[trigger] first_line_of(ls, k, d)
}

/// The listing read from `adb devices -l` is complete and takes each device
/// from its first line: every shown line's device is listed, whatever its
/// state word (`device`, `unauthorized`, `offline`, ...), and each listed
/// device carries the name, state and display name of the first shown line
/// that names it.
pub proof fn lemma_connected_complete(out: Seq<char>)
    ensures
        forall|k: int|
            1 <= k < lines(out).len() && #[trigger] shown_line(lines(out), words(lines(out)[k]))
                ==> listed(connected_devices(out), trim(words(lines(out)[k])[0])),
        forall|i: int|
            0 <= i < connected_devices(out).len() ==> #[trigger] from_first_line(
                lines(out),
                connected_devices(out)[i],
            ),
{
    let ls = lines(out);
    lemma_connected_first(ls, ls.len() as int);
    assert forall|i: int| 0 <= i < connected_devices(out).len() implies #[trigger] from_first_line(
        lines(out),
        connected_devices(out)[i],
    ) by {
        lemma_device_first_line(out, i);
    }
}

proof fn lemma_device_first_line(out: Seq<char>, i: int)
    requires
        0 <= i < connected_devices(out).len(),
    ensures
        from_first_line(lines(out), connected_devices(out)[i]),
{
    let ls = lines(out);
    lemma_connected_first(ls, ls.len() as int);
    let d = connected_devices(out)[i];
    assert(d == connected_upto(ls, ls.len() as int)[i]);
    let k = choose|k: int|
        1 <= k < ls.len() && line_device(ls, #[trigger] words(ls[k])) == Some(d) && forall|
            j2: int,
        |
            1 <= j2 < k && #[trigger] shown_line(ls, words(ls[j2])) ==> trim(words(ls[j2])[0])
                != d.name;
    assert(line_device(ls, words(ls[k])) == Some(d));
    assert(shown_line(ls, words(ls[k])));
    assert(first_line_of(ls, k, d));
}

proof fn lemma_first_new_address(devs: Seq<DeviceView>, parts: Seq<Seq<char>>)
    ensures
        first_new_address(devs, parts) matches Some(a) ==> contains(a, ":"@) && !listed(devs, a)
            && parts.contains(a),
    decreases parts.len(),
{
    if parts.len() > 0 {
        lemma_first_new_address(devs, parts.drop_first());
        if let Some(a) = first_new_address(devs, parts) {
            if !(contains(parts[0], ":"@) && !listed(devs, parts[0])) {
                let i = choose|i: int| 0 <= i < parts.drop_first().len() && parts.drop_first()[i] == a;
                assert(parts[i + 1] == a);
            } else {
                assert(parts[0] == a);
            }
        }
    }
}

proof fn lemma_with_paired_upto(devs: Seq<DeviceView>, ls: Seq<Seq<char>>, k: int)
    ensures
        with_paired_upto(devs, ls, k).len() >= devs.len(),
        with_paired_upto(devs, ls, k).take(devs.len() as int) == devs,
        forall|i: int|
            devs.len() <= i < with_paired_upto(devs, ls, k).len() ==> {
                let d = #[trigger] with_paired_upto(devs, ls, k)[i];
                &&& d == paired_device(d.name)
                &&& contains(d.name, ":"@)
            },
        names_distinct(devs) ==> names_distinct(with_paired_upto(devs, ls, k)),
    decreases k,
{
    if k > 0 {
        lemma_with_paired_upto(devs, ls, k - 1);
        let prev = with_paired_upto(devs, ls, k - 1);
        let cur = with_paired_upto(devs, ls, k);
        if contains(ls[k - 1], "_adb-tls-connect"@) {
            lemma_first_new_address(prev, words(ls[k - 1]));
            if let Some(a) = first_new_address(prev, words(ls[k - 1])) {
                assert(cur == prev.push(paired_device(a)));
                assert(cur.take(devs.len() as int) =~= prev.take(devs.len() as int));
                if names_distinct(devs) {
                    assert forall|i: int, j: int| 0 <= i < j < cur.len() implies cur[i].name
                        != cur[j].name by {
                        if j == cur.len() - 1 {
                            assert(cur[i] == prev[i]);
                        } else {
                            assert(cur[i] == prev[i] && cur[j] == prev[j]);
                        }
                    }
                }
                assert forall|i: int| devs.len() <= i < cur.len() implies {
                    let d = #[trigger] cur[i];
                    &&& d == paired_device(d.name)
                    &&& contains(d.name, ":"@)
                } by {
                    if i < prev.len() {
                        assert(cur[i] == prev[i]);
                    }
                }
            }
        }
    } else {
        assert(devs.take(devs.len() as int) =~= devs);
    }
}

/// Reading `adb mdns services` only adds devices after those already
/// listed: each added device is a paired device whose address holds a
/// colon, and names stay distinct.
pub proof fn lemma_paired_additions(devs: Seq<DeviceView>, out: Seq<char>)
    ensures
        with_paired(devs, out).take(devs.len() as int) == devs,
        forall|i: int|
            devs.len() <= i < with_paired(devs, out).len() ==> {
                let d = #[trigger] with_paired(devs, out)[i];
                &&& d.state == "available (paired)"@
                &&& d.display_name == d.name
                &&& d.platform == "android"@
                &&& contains(d.name, ":"@)
            },
        names_distinct(devs) ==> names_distinct(with_paired(devs, out)),
{
    lemma_with_paired_upto(devs, lines(out), lines(out).len() as int);
}

/// The Android devices of a status listing never share a name.
pub proof fn lemma_android_names_distinct(devices_out: Option<Seq<char>>, mdns_out: Option<Seq<char>>)
    ensures
        names_distinct(android_devices(devices_out, mdns_out)),
{
    if let Some(out) = devices_out {
        lemma_connected_names_distinct(out);
        if let Some(m) = mdns_out {
            lemma_paired_additions(connected_devices(out), m);
        }
    }
}

} // verus!
