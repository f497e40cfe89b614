use ubmsc::{ascii_to_string, ascii_to_string_safe, idx2str, u32le_to_count, Actions, DeviceId, Encoding, Error, Format, MacAddr, Options, Route};

#[test]
fn device_id_parses_mac_first() {
    let id: DeviceId = "c8:47:80:0a:1b:2c".parse().unwrap();
    assert_eq!(id, DeviceId::Mac(MacAddr([0xc8, 0x47, 0x80, 0x0a, 0x1b, 0x2c])));
    assert_eq!(id.to_string(), "C8:47:80:0A:1B:2C");
    let id = DeviceId::from_text("UPS_BMS");
    assert_eq!(id, DeviceId::Name("UPS_BMS".into()));
    assert_eq!(id.to_string(), "UPS_BMS");
}

#[test]
fn device_id_from_parsed() {
    assert_eq!(DeviceId::from_parsed("x", Some([1, 2, 3, 4, 5, 6])), DeviceId::Mac(MacAddr([1, 2, 3, 4, 5, 6])));
    assert_eq!(DeviceId::from_parsed("x", None), DeviceId::Name("x".into()));
}

#[test]
fn device_id_matching() {
    let mac = DeviceId::Mac(MacAddr([1, 2, 3, 4, 5, 6]));
    assert!(mac.match_periphery(&[1, 2, 3, 4, 5, 6], None));
    assert!(!mac.match_periphery(&[1, 2, 3, 4, 5, 7], Some("x")));
    let name = DeviceId::Name("JK-BMS".into());
    assert!(name.match_periphery(&[0; 6], Some("JK-BMS")));
    assert!(!name.match_periphery(&[0; 6], Some("JK-BM")));
    assert!(!name.match_periphery(&[0; 6], None));
    assert!(mac.match_adapter("hci0 (01:02:03:04:05:06)"));
    assert!(!mac.match_adapter("hci0 (01:02:03:04:05:07)"));
    assert!(name.match_adapter("adapter JK-BMS"));
    assert!(!name.match_adapter("JK-B"));
}

#[test]
fn text_fields() {
    assert_eq!(ascii_to_string(b"\0\0ab\0c\0\0").unwrap(), "ab\0c");
    assert_eq!(ascii_to_string(b"\0\0\0").unwrap(), "");
    assert_eq!(ascii_to_string(&[0x41, 0xff]).unwrap_err(), Error::Utf8);
    assert_eq!(ascii_to_string_safe("field", &[0x41, 0xff]), "");
    assert_eq!(ascii_to_string_safe("field", b"15A\0\0"), "15A");
    assert_eq!(u32le_to_count(&[0x7c, 0xe3, 0x18, 0x00]), 1631100);
}

#[test]
fn accept_header_negotiation() {
    assert!(matches!(Encoding::from_accept(b"application/vnd.google.protobuf; q=0.7,text/plain"), Some(Encoding::Protobuf)));
    assert!(matches!(Encoding::from_accept(b"text/plain;version=0.0.4"), Some(Encoding::Text)));
    assert!(Encoding::from_accept(b"application/json").is_none());
    assert!(Encoding::from_accept(b"").is_none());
}

#[test]
fn exporter_routes() {
    assert_eq!(Route::of("GET", "/metrics"), Route::Metrics);
    assert_eq!(Route::of("POST", "/metrics").status(), 405);
    assert_eq!(Route::of("GET", "/").status(), 404);
    assert_eq!(Route::of("GET", "/metrics").status(), 200);
}

#[test]
fn format_names() {
    assert_eq!(Format::from_name("r"), Some(Format::Rust));
    assert_eq!(Format::from_name("rust-pretty"), Some(Format::RustPretty));
    assert_eq!(Format::from_name("J"), Some(Format::JsonPretty));
    assert_eq!(Format::from_name("toml"), Some(Format::Toml));
    assert_eq!(Format::from_name("m"), Some(Format::Metrics));
    assert_eq!(Format::from_name("xml"), None);
    assert_eq!("yaml".parse::<Format>(), Ok(Format::Yaml));
    assert_eq!("xml".parse::<Format>(), Err("Unknown data format: xml".to_string()));
}

#[test]
fn cell_labels() {
    assert_eq!(idx2str(0), "0");
    assert_eq!(idx2str(9), "9");
    assert_eq!(idx2str(17), "17");
    assert_eq!(idx2str(31), "31");
    assert_eq!(idx2str(32), "N");
}

#[test]
fn default_options_and_actions() {
    let o = Options::default();
    assert_eq!((o.scan_timeout, o.request_timeout), (30, 5));
    let a = Actions { device_info: false, cell_data: false, exporter: true, push: true };
    assert!(!a.has_command());
    assert!(!a.has_server());
    assert!(a.has_client());
    assert!(a.has_action());
    assert!(!Actions::default().has_action());
}
