//! The audio devices offered to the user and the monitor source of the
//! default output, as the recorder finds them.
use vstd::prelude::*;
use vstd::string::*;
use vstd::utf8::{decode_utf8, encode_utf8, encode_utf8_decode_utf8, valid_utf8};
use crate::text::{owned, trim, trimmed};

verus! {

/// The properties of an audio source that can name it; each is `None` when
/// the device has no such text property.
pub struct DeviceProperties {
    pub device_name: Option<String>,
    pub pulse_device_name: Option<String>,
    pub object_path: Option<String>,
}

/// An audio source the device monitor reported: its display name, and its
/// properties when it has any.
pub struct AudioDevice {
    pub display_name: String,
    pub properties: Option<DeviceProperties>,
}

/// One entry of the microphone list: the id passed back when recording, and
/// the name shown.
pub struct MicEntry {
    pub id: String,
    pub name: String,
}

/// The properties of a device as plain values.
pub struct PropertiesView {
    pub device_name: Option<Seq<char>>,
    pub pulse_device_name: Option<Seq<char>>,
    pub object_path: Option<Seq<char>>,
}

/// A device as plain values.
pub struct DeviceView {
    pub display_name: Seq<char>,
    pub properties: Option<PropertiesView>,
}

impl View for DeviceProperties {
    type V = PropertiesView;

    open spec fn view(&self) -> PropertiesView {
        PropertiesView {
            device_name: self.device_name.deep_view(),
            pulse_device_name: self.pulse_device_name.deep_view(),
            object_path: self.object_path.deep_view(),
        }
    }
}

impl View for AudioDevice {
    type V = DeviceView;

    open spec fn view(&self) -> DeviceView {
        DeviceView {
            display_name: self.display_name@,
            properties: match self.properties {
                Some(p) => Some(p@),
                None => None,
            },
        }
    }
}

impl View for MicEntry {
    type V = (Seq<char>, Seq<char>);

    open spec fn view(&self) -> (Seq<char>, Seq<char>) {
        (self.id@, self.name@)
    }
}

/// The id of a device: its `device.name`, else its `pulse.device.name`, else
/// its `object.path`, else its display name.
pub open spec fn mic_id_of(name: Seq<char>, p: PropertiesView) -> Seq<char> {
    match p.device_name {
        Some(n) => n,
        None => match p.pulse_device_name {
            Some(n) => n,
            None => match p.object_path {
                Some(n) => n,
                None => name,
            },
        },
    }
}

/// The entry listed for a device; devices without properties are left out.
pub open spec fn mic_entry_of(d: DeviceView) -> Option<(Seq<char>, Seq<char>)> {
    match d.properties {
        Some(p) => Some((mic_id_of(d.display_name, p), d.display_name)),
        None => None,
    }
}

/// The entries of the devices, in order.
pub open spec fn mic_entries_of(ds: Seq<DeviceView>) -> Seq<(Seq<char>, Seq<char>)>
    decreases ds.len(),
{
    if ds.len() == 0 {
        Seq::empty()
    } else {
        mic_entries_of(ds.drop_last()) + match mic_entry_of(ds.last()) {
            Some(e) => seq![e],
            None => Seq::empty(),
        }
    }
}

/// The entry that always heads the list: the default source.
pub open spec fn default_mic_entry() -> (Seq<char>, Seq<char>) {
    ("default"@, "Default Audio Source"@)
}

fn first_text(a: &Option<String>, b: &Option<String>, c: &Option<String>, d: &String) -> (r: String)
    ensures
        r@ == (match a.deep_view() {
            Some(n) => n,
            None => match b.deep_view() {
                Some(n) => n,
                None => match c.deep_view() {
                    Some(n) => n,
                    None => d@,
                },
            },
        }),
{
    match a {
        Some(n) => n.clone(),
        None => match b {
            Some(n) => n.clone(),
            None => match c {
                Some(n) => n.clone(),
                None => d.clone(),
            },
        },
    }
}

/// The entry listed for a device, if it has properties.
pub fn microphone_entry(d: &AudioDevice) -> (e: Option<MicEntry>)
    ensures
        match e {
            Some(m) => mic_entry_of(d@) == Some(m@),
            None => mic_entry_of(d@) is None,
        },
{
    match &d.properties {
        Some(p) => {
            let id = first_text(&p.device_name, &p.pulse_device_name, &p.object_path, &d.display_name);
            Some(MicEntry { id, name: d.display_name.clone() })
        },
        None => None,
    }
}

/// Lists the microphones offered to the user: the default source first,
/// then one entry per device with properties, in the monitor's order.
pub fn microphone_list(devices: &Vec<AudioDevice>) -> (v: Vec<MicEntry>)
    ensures
        v@.len() >= 1,
        v@.map_values(|m: MicEntry| m@) == seq![default_mic_entry()] + mic_entries_of(
            devices@.map_values(|d: AudioDevice| d@),
        ),
{
    let mut v: Vec<MicEntry> = Vec::new();
    v.push(MicEntry { id: owned("default"), name: owned("Default Audio Source") });
    let ghost ds = devices@.map_values(|d: AudioDevice| d@);
    let mut i: usize = 0;
    while i < devices.len()
        invariant
            i <= devices.len(),
            ds == devices@.map_values(|d: AudioDevice| d@),
            v@.len() >= 1,
            v@.map_values(|m: MicEntry| m@) == seq![default_mic_entry()] + mic_entries_of(ds.take(i as int)),
        decreases devices.len() - i,
    {
        let ghost before = v@.map_values(|m: MicEntry| m@);
        proof {
            assert(ds.take(i + 1).drop_last() =~= ds.take(i as int));
            assert(ds.take(i + 1).last() == devices@[i as int]@);
        }
        match microphone_entry(&devices[i]) {
            Some(e) => {
                v.push(e);
                proof {
                    assert(v@.map_values(|m: MicEntry| m@) =~= before.push(e@));
                }
            },
            None => {},
        }
        i = i + 1;
    }
    proof {
        assert(ds.take(i as int) =~= ds);
    }
    v
}

/// The text that `String::from_utf8_lossy` makes of some bytes.
pub uninterp spec fn lossy_text(bytes: Seq<u8>) -> Seq<char>;

/// Calls `String::from_utf8_lossy`. Claimed: the result is determined by the
/// bytes, and bytes that are valid UTF-8 are read as they are, so the result
/// encodes back to them. What replaces invalid sequences is left unsaid.
#[verifier::external_body]
fn text_from_bytes(bytes: &[u8]) -> (s: String)
    ensures
        s@ == lossy_text(bytes@),
        valid_utf8(bytes@) ==> encode_utf8(s@) == bytes@,
{
    String::from_utf8_lossy(bytes).into_owned()
}

/// The monitor source of the sink named `sink`, if a sink is named.
pub open spec fn monitor_of(sink: Seq<char>) -> Option<Seq<char>> {
    if sink.len() == 0 {
        None
    } else {
        Some(sink + ".monitor"@)
    }
}

/// Names the monitor source of a sink: nothing for an empty name.
pub fn monitor_source(sink: &str) -> (m: Option<String>)
    ensures
        m.deep_view() == monitor_of(sink@),
{
    if sink.is_empty() {
        None
    } else {
        let mut s = owned(sink);
        s.append(".monitor");
        Some(s)
    }
}

/// Reads the default sink from what `pactl get-default-sink` printed and
/// names its monitor source.
pub fn default_sink_monitor(pactl_output: &[u8]) -> (m: Option<String>)
    ensures
        m.deep_view() == monitor_of(trimmed(lossy_text(pactl_output@))),
        valid_utf8(pactl_output@) ==> m.deep_view() == monitor_of(
            trimmed(decode_utf8(pactl_output@)),
        ),
{
    let text = text_from_bytes(pactl_output);
    proof {
        if valid_utf8(pactl_output@) {
            encode_utf8_decode_utf8(text@);
        }
    }
    let sink = trim(text.as_str());
    monitor_source(sink)
}

/// The monitor source, when there is one, is the sink's name followed by ".monitor".
pub proof fn law_monitor_names_sink(sink: Seq<char>)
    ensures
        monitor_of(sink) is Some <==> sink.len() > 0,
        monitor_of(sink) matches Some(m) ==> m.subrange(0, sink.len() as int) == sink
            && m.len() == sink.len() + ".monitor"@.len(),
{
    if sink.len() > 0 {
        let m = sink + ".monitor"@;
        assert(m.subrange(0, sink.len() as int) =~= sink);
    }
}


/// How the microphone entries grow with the devices: a device with
/// properties adds one entry at the end, named by its display name and
/// identified by the first of its `device.name`, `pulse.device.name` and
/// `object.path` that it has, else by its display name; a device without
/// properties adds nothing. There are never more entries than devices.
pub proof fn law_mic_entries(ds: Seq<DeviceView>, d: DeviceView)
    ensures
        mic_entries_of(ds).len() <= ds.len(),
        d.properties is None ==> mic_entries_of(ds.push(d)) == mic_entries_of(ds),
        forall|p: PropertiesView| d.properties == Some(p) ==> mic_entries_of(ds.push(d)) == mic_entries_of(ds).push(
            (
                if p.device_name is Some {
                    p.device_name->0
                } else if p.pulse_device_name is Some {
                    p.pulse_device_name->0
                } else if p.object_path is Some {
                    p.object_path->0
                } else {
                    d.display_name
                },
                d.display_name,
            ),
        ),
    decreases ds.len(),
{
    assert(ds.push(d).drop_last() =~= ds);
    if ds.len() > 0 {
        law_mic_entries(ds.drop_last(), ds.last());
    }
    assert forall|p: PropertiesView| d.properties == Some(p) implies mic_entries_of(ds.push(d)) == mic_entries_of(ds).push(
        (
            if p.device_name is Some {
                p.device_name->0
            } else if p.pulse_device_name is Some {
                p.pulse_device_name->0
            } else if p.object_path is Some {
                p.object_path->0
            } else {
                d.display_name
            },
            d.display_name,
        ),
    ) by {
        assert(mic_entries_of(ds.push(d)) =~= mic_entries_of(ds) + seq![mic_entry_of(d)->0]);
    }
}

} // verus!
