use neodos::urn::{urn_open, urn_parse, Urn, UrnHandle, UrnScheme, UrnTarget};

#[test]
fn urn_parse_scheme() {
    let urn = urn_parse("neodos://file/C:/System/boot.cfg").unwrap();
    assert_eq!(urn.scheme, UrnScheme::File);
    assert_eq!(urn.path, "C:/System/boot.cfg");
}

#[test]
fn urn_parse_device_scheme() {
    let urn = urn_parse("neodos://device/Harddisk0/Partition1").unwrap();
    assert_eq!(urn.scheme, UrnScheme::Device);
    assert_eq!(urn.path, "Harddisk0/Partition1");
}

#[test]
fn urn_parse_registry_scheme() {
    let urn = urn_parse("neodos://registry/Machine/System").unwrap();
    assert_eq!(urn.scheme, UrnScheme::Registry);
    assert_eq!(urn.path, "Machine/System");
}

#[test]
fn urn_parse_kobj_scheme() {
    let urn = urn_parse("neodos://kobj/Driver/ahci").unwrap();
    assert_eq!(urn.scheme, UrnScheme::KObj);
    assert_eq!(urn.path, "Driver/ahci");
}

#[test]
fn urn_parse_invalid_prefix() {
    assert!(urn_parse("http://file/x").is_err());
}

#[test]
fn urn_parse_missing_scheme() {
    assert!(urn_parse("neodos://").is_err());
}

#[test]
fn urn_parse_unknown_scheme() {
    assert!(urn_parse("neodos://foo/bar").is_err());
}

#[test]
fn urn_parse_missing_path() {
    assert!(urn_parse("neodos://file/").is_err());
}

#[test]
fn urn_to_string_roundtrip() {
    let urn = Urn { scheme: UrnScheme::File, path: String::from("C:/test.txt") };
    let s = urn.to_string();
    assert_eq!(s, "neodos://file/C:/test.txt");
    let parsed = urn_parse(&s).unwrap();
    assert_eq!(parsed.scheme, UrnScheme::File);
    assert_eq!(parsed.path, "C:/test.txt");
}

#[test]
fn urn_open_registry_not_implemented() {
    let r = urn_open("neodos://registry/Machine/System");
    assert!(r.is_err());
}

#[test]
fn urn_open_kobj_not_implemented() {
    let r = urn_open("neodos://kobj/Driver/ahci");
    assert!(r.is_err());
}

#[test]
fn urn_handle_create() {
    let h = UrnHandle::new(3);
    assert_eq!(h.fd, 3);
}

#[test]
fn urn_parse_error_messages() {
    assert_eq!(urn_parse("http://file/x").unwrap_err(), "URN must start with neodos://");
    assert_eq!(
        urn_parse("neodos://").unwrap_err(),
        "URN must have scheme and path separated by /"
    );
    assert_eq!(urn_parse("neodos:///x").unwrap_err(), "URN scheme is empty");
    assert_eq!(urn_parse("neodos://file/").unwrap_err(), "URN path is empty");
    assert_eq!(
        urn_parse("neodos://foo/bar").unwrap_err(),
        "Unknown URN scheme (valid: device, file, registry, kobj)"
    );
}

#[test]
fn urn_parse_path_keeps_later_slashes() {
    let urn = urn_parse("neodos://device/a/b/c").unwrap();
    assert_eq!(urn.scheme, UrnScheme::Device);
    assert_eq!(urn.path, "a/b/c");
}

#[test]
fn urn_roundtrip_every_scheme() {
    for scheme in [UrnScheme::Device, UrnScheme::File, UrnScheme::Registry, UrnScheme::KObj] {
        let urn = Urn { scheme, path: String::from("X/y") };
        let parsed = urn_parse(&urn.to_string()).unwrap();
        assert_eq!(parsed.scheme, scheme);
        assert_eq!(parsed.path, "X/y");
    }
}

#[test]
fn urn_open_file_turns_slashes_into_backslashes() {
    match urn_open("neodos://file/C:/System/boot.cfg").unwrap() {
        UrnTarget::File(p) => assert_eq!(p, "C:\\System\\boot.cfg"),
        other => panic!("unexpected target {:?}", other),
    }
}

#[test]
fn urn_open_device_maps_into_device_namespace() {
    match urn_open("neodos://device/Harddisk0/Partition1").unwrap() {
        UrnTarget::Device(p) => assert_eq!(p, "\\Device\\Harddisk0/Partition1"),
        other => panic!("unexpected target {:?}", other),
    }
}

#[test]
fn urn_open_error_texts() {
    assert_eq!(
        urn_open("neodos://registry/Machine/System").unwrap_err(),
        "Registry URN scheme not yet implemented"
    );
    assert_eq!(urn_open("neodos://kobj/Driver/ahci").unwrap_err(), "KObj URN scheme not yet implemented");
    assert_eq!(urn_open("nope").unwrap_err(), "URN must start with neodos://");
}

#[test]
fn urn_scheme_names() {
    assert_eq!(UrnScheme::Device.to_str(), "device");
    assert_eq!(UrnScheme::File.to_str(), "file");
    assert_eq!(UrnScheme::Registry.to_str(), "registry");
    assert_eq!(UrnScheme::KObj.to_str(), "kobj");
    assert_eq!(UrnScheme::from_str("kobj"), Some(UrnScheme::KObj));
    assert_eq!(UrnScheme::from_str("KOBJ"), None);
}
