use rscreenrec::devices::{
    default_sink_monitor, microphone_entry, microphone_list, monitor_source, AudioDevice,
    DeviceProperties,
};

fn device(name: &str, props: Option<(Option<&str>, Option<&str>, Option<&str>)>) -> AudioDevice {
    AudioDevice {
        display_name: name.to_string(),
        properties: props.map(|(a, b, c)| DeviceProperties {
            device_name: a.map(|s| s.to_string()),
            pulse_device_name: b.map(|s| s.to_string()),
            object_path: c.map(|s| s.to_string()),
        }),
    }
}

#[test]
fn microphone_ids_in_order_of_preference() {
    let e = microphone_entry(&device("Mic", Some((Some("alsa_in"), Some("p"), Some("o"))))).unwrap();
    assert_eq!((e.id.as_str(), e.name.as_str()), ("alsa_in", "Mic"));
    let e = microphone_entry(&device("Mic", Some((None, Some("pulse_in"), Some("o"))))).unwrap();
    assert_eq!(e.id, "pulse_in");
    let e = microphone_entry(&device("Mic", Some((None, None, Some("/obj/1"))))).unwrap();
    assert_eq!(e.id, "/obj/1");
    let e = microphone_entry(&device("Mic", Some((None, None, None)))).unwrap();
    assert_eq!(e.id, "Mic");
    assert!(microphone_entry(&device("Mic", None)).is_none());
}

#[test]
fn microphone_list_starts_with_default() {
    let list = microphone_list(&vec![
        device("A", Some((Some("a"), None, None))),
        device("B", None),
        device("C", Some((None, None, None))),
    ]);
    let pairs: Vec<(String, String)> = list.into_iter().map(|m| (m.id, m.name)).collect();
    assert_eq!(
        pairs,
        vec![
            ("default".to_string(), "Default Audio Source".to_string()),
            ("a".to_string(), "A".to_string()),
            ("C".to_string(), "C".to_string()),
        ]
    );
    assert_eq!(microphone_list(&vec![]).len(), 1);
}

#[test]
fn monitor_of_sink() {
    assert_eq!(monitor_source("alsa_output.pci"), Some("alsa_output.pci.monitor".to_string()));
    assert_eq!(monitor_source(""), None);
}

#[test]
fn monitor_from_pactl_output() {
    assert_eq!(
        default_sink_monitor(b"alsa_output.pci-0000_00_1f.3.analog-stereo\n"),
        Some("alsa_output.pci-0000_00_1f.3.analog-stereo.monitor".to_string())
    );
    assert_eq!(default_sink_monitor(b"  \n"), None);
    assert_eq!(default_sink_monitor(b""), None);
    assert_eq!(default_sink_monitor(&[0xff, b'\n']), Some("\u{fffd}.monitor".to_string()));
}

#[test]
fn monitor_from_output_with_unicode_spaces() {
    assert_eq!(
        default_sink_monitor("\u{a0}sink\u{3000}\n".as_bytes()),
        Some("sink.monitor".to_string())
    );
    assert_eq!(default_sink_monitor("\u{2003}\t".as_bytes()), None);
}
