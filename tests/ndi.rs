use ndi_sdk::{
    check_initialize, first_existing, library_file_name, search_directories, string_from_c_bytes,
    to_c_bytes, version, FindInstance, FindSettings, NDIError, NativeSource, NativeSourceList, Os,
    Platform, RouteInstance, Source,
};

fn native(name: &str, url: &str) -> NativeSource {
    let mut n = name.as_bytes().to_vec();
    n.push(0);
    let mut u = url.as_bytes().to_vec();
    u.push(0);
    NativeSource { ndi_name: n, url_address: u }
}

#[test]
fn test_find() {
    let settings = FindSettings::new().show_local_sources(true).build().unwrap();
    assert!(settings.show_local_sources);
    assert!(settings.groups.is_none());
    assert!(settings.extra_ips.is_none());
    let mut inst = FindInstance::create(Some(0x1000)).unwrap();
    assert!(!inst.wait_for_sources(Some(false)).unwrap());
    assert!(inst.wait_for_sources(Some(true)).unwrap());
    let list = NativeSourceList { count: 1, records: Some(vec![native("HOST (Cam)", "10.0.0.2:5961")]) };
    let sources = inst.get_current_sources(Some(list)).unwrap();
    assert_eq!(sources.len(), 1);
    assert_eq!(sources[0].ndi_name, "HOST (Cam)");
    assert_eq!(sources[0].url_address, "10.0.0.2:5961");
}

#[test]
fn test_version_alloc() {
    let bytes = b"NDI SDK LINUX 6.0.0\0".to_vec();
    let v1 = version(Some(Some(bytes.clone()))).unwrap();
    let v2 = version(Some(Some(bytes))).unwrap();
    assert_eq!(v1, v2);
    assert_eq!(v1, "NDI SDK LINUX 6.0.0");
}

#[test]
fn test_create() {
    let settings = RouteInstance::create_settings("Router Test 1", &vec!["Public"]).unwrap();
    assert_eq!(settings.ndi_name, b"Router Test 1\0".to_vec());
    assert_eq!(settings.groups, b"Public\0".to_vec());
    let ri = RouteInstance::create(Some(0x2000)).unwrap();
    assert_eq!(ri.handle(), 0x2000);
}

#[test]
fn library_names_per_platform() {
    let p = |os, w| Platform { os, pointer_width: w };
    assert_eq!(library_file_name(p(Os::MacOs, 64)), Some("libndi.dylib"));
    assert_eq!(library_file_name(p(Os::OtherUnix, 64)), Some("libndi.so.6"));
    assert_eq!(library_file_name(p(Os::Windows, 64)), Some("Processing.NDI.Lib.x64.dll"));
    assert_eq!(library_file_name(p(Os::Windows, 32)), Some("Processing.NDI.Lib.x86.dll"));
    assert_eq!(library_file_name(p(Os::Windows, 16)), None);
    assert_eq!(library_file_name(p(Os::Other, 64)), None);
}

#[test]
fn search_order_runtime_dir_first() {
    let linux = Platform { os: Os::OtherUnix, pointer_width: 64 };
    let dirs = search_directories(Some("/opt/ndi".to_string()), linux);
    let bases: Vec<&str> = dirs.iter().map(|d| d.base.as_str()).collect();
    assert_eq!(bases, vec!["/opt/ndi", "/usr/local/lib", "/usr/lib"]);
    assert!(dirs.iter().all(|d| d.subdir.is_none()));
    assert_eq!(first_existing(&[true, true, false]), Some(0));

    let win = Platform { os: Os::Windows, pointer_width: 64 };
    let dirs = search_directories(Some("C:\\NDI".to_string()), win);
    assert_eq!(dirs.len(), 1);
    assert_eq!(dirs[0].subdir, Some("lib"));

    let mac = Platform { os: Os::MacOs, pointer_width: 64 };
    let dirs = search_directories(None, mac);
    assert_eq!(dirs.len(), 1);
    assert_eq!(dirs[0].base, "/usr/local/lib");
}

#[test]
fn first_existing_picks_first_or_none() {
    assert_eq!(first_existing(&[false, true, true]), Some(1));
    assert_eq!(first_existing(&[false, false]), None);
    assert_eq!(first_existing(&[]), None);
}

#[test]
fn outbound_marshaling() {
    assert_eq!(to_c_bytes("ab").unwrap(), vec![b'a', b'b', 0]);
    assert_eq!(to_c_bytes("").unwrap(), vec![0]);
    assert_eq!(to_c_bytes("é").unwrap(), vec![0xC3, 0xA9, 0]);
    assert!(matches!(to_c_bytes("a\0b"), Err(NDIError::InvalidCString)));
}

#[test]
fn inbound_marshaling_is_strict() {
    assert_eq!(string_from_c_bytes(&[0x68, 0xC3, 0xA9, 0, 0x41]).unwrap(), "hé");
    assert_eq!(string_from_c_bytes(b"no terminator").unwrap(), "no terminator");
    assert!(matches!(string_from_c_bytes(&[0xFF, 0]), Err(NDIError::Utf8Error(_))));
    assert!(matches!(string_from_c_bytes(&[0x41, 0, 0xFF]), Ok(_)));
}

#[test]
fn source_round_trip() {
    let s = Source { ndi_name: "STUDIO (Main)".to_string(), url_address: "192.168.1.5:5961".to_string() };
    let back = s.with_raw(|rec| Source::from_native(rec)).unwrap().unwrap();
    assert_eq!(back.ndi_name, s.ndi_name);
    assert_eq!(back.url_address, s.url_address);
}

#[test]
fn with_raw_rejects_nul_in_either_field() {
    let bad_name = Source { ndi_name: "a\0".to_string(), url_address: "x".to_string() };
    let bad_url = Source { ndi_name: "a".to_string(), url_address: "x\0y".to_string() };
    let mut called = false;
    assert!(matches!(bad_name.with_raw(|_| called = true), Err(NDIError::InvalidCString)));
    assert!(matches!(bad_url.with_raw(|_| called = true), Err(NDIError::InvalidCString)));
    assert!(!called);
}

#[test]
fn no_sources_is_empty_not_error() {
    let mut inst = FindInstance::create(Some(7)).unwrap();
    let list = NativeSourceList { count: 0, records: None };
    assert!(inst.get_current_sources(Some(list)).unwrap().is_empty());
}

#[test]
fn sources_null_pointer_and_missing_symbol() {
    let mut inst = FindInstance::create(Some(7)).unwrap();
    let list = NativeSourceList { count: 2, records: None };
    assert!(matches!(
        inst.get_current_sources(Some(list)),
        Err(NDIError::UnexpectedNullPointer("find_get_current_sources"))
    ));
    assert!(matches!(
        inst.get_current_sources(None),
        Err(NDIError::MissingSymbolV5("find_get_current_sources"))
    ));
    assert!(matches!(inst.wait_for_sources(None), Err(NDIError::MissingSymbolV5("find_wait_for_sources"))));
    let bad = NativeSourceList { count: 1, records: Some(vec![NativeSource { ndi_name: vec![0xFF, 0], url_address: vec![0] }]) };
    assert!(matches!(inst.get_current_sources(Some(bad)), Err(NDIError::Utf8Error(_))));
}

#[test]
fn create_failures() {
    assert!(matches!(FindInstance::create(None), Err(NDIError::MissingSymbolV5("find_create_v2"))));
    assert!(matches!(FindInstance::create(Some(0)), Err(NDIError::UnexpectedNullPointer("find_create_v2"))));
    assert!(matches!(RouteInstance::create(None), Err(NDIError::MissingSymbolV5("routing_create"))));
    assert!(matches!(RouteInstance::create(Some(0)), Err(NDIError::UnexpectedNullPointer("routing_create"))));
    assert!(matches!(RouteInstance::create_settings("a\0", &["g"]), Err(NDIError::InvalidCString)));
    assert!(matches!(RouteInstance::create_settings("a", &["g\0"]), Err(NDIError::InvalidCString)));
}

#[test]
fn destroy_runs_once() {
    let mut f = FindInstance::create(Some(42)).unwrap();
    assert_eq!(f.destroy(), Some(42));
    assert_eq!(f.destroy(), None);
    let mut r = RouteInstance::create(Some(43)).unwrap();
    assert_eq!(r.destroy(), Some(43));
    assert_eq!(r.destroy(), None);
}

#[test]
fn settings_fill_groups_and_extra_ips_separately() {
    let c = FindSettings::new()
        .add_group("Public")
        .add_group("Studio")
        .add_extra_ip("10.0.0.9")
        .build()
        .unwrap();
    assert!(!c.show_local_sources);
    assert_eq!(c.groups, Some(b"Public,Studio\0".to_vec()));
    assert_eq!(c.extra_ips, Some(b"10.0.0.9\0".to_vec()));
    assert!(matches!(FindSettings::new().add_extra_ip("1\0").build(), Err(NDIError::InvalidCString)));
}

#[test]
fn route_change_and_clear() {
    let ri = RouteInstance::create(Some(9)).unwrap();
    let s = Source { ndi_name: "A".to_string(), url_address: "1.2.3.4:5".to_string() };
    let seen = ri.change(true, &s, |h, rec| (h, rec.ndi_name.clone(), rec.url_address.clone())).unwrap();
    assert_eq!(seen, (9, b"A\0".to_vec(), b"1.2.3.4:5\0".to_vec()));
    assert!(matches!(ri.change(false, &s, |_, _| ()), Err(NDIError::MissingSymbolV5("routing_change"))));
    assert_eq!(ri.clear(true, |h| h + 1).unwrap(), 10);
    assert!(matches!(ri.clear(false, |_| ()), Err(NDIError::MissingSymbolV5("routing_clear"))));
}

#[test]
fn initialize_outcomes() {
    assert!(check_initialize(true, Some(true)).is_ok());
    assert!(matches!(check_initialize(false, Some(true)), Err(NDIError::LoadV5Failed)));
    assert!(matches!(check_initialize(true, None), Err(NDIError::MissingSymbolV5("initialize"))));
    assert!(matches!(check_initialize(true, Some(false)), Err(NDIError::InitializeFailed)));
}

#[test]
fn version_failures() {
    assert!(matches!(version(None), Err(NDIError::MissingSymbolV5("version"))));
    assert!(matches!(version(Some(None)), Err(NDIError::UnexpectedNullPointer("version"))));
    assert!(matches!(version(Some(Some(vec![0xC0, 0]))), Err(NDIError::Utf8Error(_))));
}
