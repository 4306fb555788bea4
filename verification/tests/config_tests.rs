use rfs::config::shape;
use rfs::config::{
    check_path, check_url, config_format, find_key, listen_addr, quote, unknown_format_error,
    ConfigFormat, DotPath, MergeError, PathKind, PathProbe, Probe, Settings, SrcFile,
};
use rfs::net::addr::{IpAddress, SockAddr};

fn empty_file() -> shape::Settings {
    shape::Settings {
        id: None,
        data: None,
        tmp: None,
        master_key: None,
        listeners: None,
        templates: None,
        assets: None,
        sec: None,
        db: None,
    }
}

fn src() -> SrcFile {
    match SrcFile::new("/etc/rfs/config.yaml") {
        Ok(s) => s,
        Err(_) => panic!("no parent"),
    }
}

fn invalid_context(e: MergeError) -> String {
    match e {
        MergeError::Invalid(err) => err.cxt.unwrap(),
        MergeError::Unprobed(p) => panic!("unprobed {p}"),
    }
}

#[test]
fn quoting_and_dot_paths() {
    assert_eq!(quote("a b"), "\"a b\"");
    let d = DotPath::new("settings").push("assets").push("files");
    assert_eq!(d.to_text(), "settings.assets.files");
}

#[test]
fn source_file_parent() {
    let s = src();
    assert_eq!(s.parent, "/etc/rfs");
    assert_eq!(s.src, "/etc/rfs/config.yaml");
    match SrcFile::new("/") {
        Ok(_) => panic!("root has no parent"),
        Err(e) => assert_eq!(
            e.cxt.as_deref(),
            Some("failed to retrieve parent path from source file \"/\"")
        ),
    }
}

#[test]
fn checked_paths() {
    let s = src();
    let d = DotPath::new("settings").push("data");
    let mut probe = PathProbe::new();
    match check_path("../data", &s, &d, false, &probe) {
        Err(MergeError::Unprobed(p)) => assert_eq!(p, "/etc/data"),
        _ => panic!("expected an unprobed path"),
    }
    probe.record("/etc/data".to_owned(), Probe::Found(PathKind::Directory));
    probe.record("/etc/rfs/key.pem".to_owned(), Probe::Found(PathKind::File));
    probe.record("/gone".to_owned(), Probe::Missing);
    probe.record("/broken".to_owned(), Probe::Failed("permission denied".to_owned()));
    assert!(matches!(check_path("../data", &s, &d, false, &probe), Ok(p) if p == "/etc/data"));
    let e = check_path("../data", &s, &d, true, &probe).err().unwrap();
    assert_eq!(invalid_context(e), "settings.data is not a file in: \"/etc/rfs/config.yaml\"");
    let e = check_path("key.pem", &s, &d, false, &probe).err().unwrap();
    assert_eq!(
        invalid_context(e),
        "settings.data is not a directory in: \"/etc/rfs/config.yaml\""
    );
    let e = check_path("/gone", &s, &d, false, &probe).err().unwrap();
    assert_eq!(invalid_context(e), "settings.data \"/etc/rfs/config.yaml\" was not found");
    match check_path("/broken", &s, &d, false, &probe) {
        Err(MergeError::Invalid(err)) => {
            assert_eq!(
                err.cxt.as_deref(),
                Some("settings.data failed to retrieve metadata for: \"/etc/rfs/config.yaml\"")
            );
            assert_eq!(err.src.as_deref(), Some("permission denied"));
        }
        _ => panic!("expected a failed lookup"),
    }
}

#[test]
fn asset_url_paths() {
    let s = src();
    let d = DotPath::new("settings").push("assets");
    assert!(matches!(check_url("  /static/app.js ", &s, &d), Ok(p) if p == "/static/app.js"));
    assert!(matches!(check_url("favicon.ico", &s, &d), Ok(p) if p == "/favicon.ico"));
    let e = check_url("/a/%2e%2e/b", &s, &d);
    assert!(e.is_ok() || matches!(e, Err(MergeError::Invalid(_))));
    match check_url("http://[", &s, &d) {
        Err(MergeError::Invalid(err)) => {
            assert_eq!(
                err.cxt.as_deref(),
                Some("settings.assets \"http://[\" is not a valid url path. file: \"/etc/rfs/config.yaml\"")
            );
            assert!(err.src.is_some());
        }
        Ok(p) => assert_eq!(p, "/http://["),
        Err(MergeError::Unprobed(_)) => panic!("no probing for urls"),
    }
}

#[test]
fn default_settings() {
    let s = Settings::default_in("/srv/rfs");
    assert_eq!(s.id, 1);
    assert_eq!(s.data, "/srv/rfs/data");
    assert_eq!(s.tmp, "/srv/rfs/tmp");
    assert_eq!(s.master_key, "rfs_master_key_secret");
    assert_eq!(s.templates.directory, "/srv/rfs/templates");
    assert!(!s.templates.dev_mode);
    assert!(s.listeners.is_empty());
    assert_eq!(s.db.user, "postgres");
    assert_eq!(s.db.host, "localhost");
    assert_eq!(s.db.port, 5432);
    assert_eq!(s.db.dbname, "rfs");
    assert!(s.db.password.is_none());
    assert!(s.sec.session.hash == rfs::config::Hash::Blake3);
    assert!(s.sec.session.secure);
}

#[test]
fn merge_waits_for_probe_then_applies() {
    let s = src();
    let dot = DotPath::new("settings");
    let mut probe = PathProbe::new();
    let file = || shape::Settings {
        id: Some(7),
        data: Some("../data".to_owned()),
        master_key: Some("k".to_owned()),
        db: Some(shape::Db {
            user: None,
            password: Some("pw".to_owned()),
            host: Some("db.local".to_owned()),
            port: None,
            dbname: None,
        }),
        ..empty_file()
    };
    let mut settings = Settings::default_in("/srv");
    match settings.merge(&s, &dot, file(), &probe) {
        Err(MergeError::Unprobed(p)) => assert_eq!(p, "/etc/data"),
        _ => panic!("expected an unprobed path"),
    }
    assert_eq!(settings.id, 7);
    assert_eq!(settings.data, "/srv/data");
    probe.record("/etc/data".to_owned(), Probe::Found(PathKind::Directory));
    let mut settings = Settings::default_in("/srv");
    assert!(settings.merge(&s, &dot, file(), &probe).is_ok());
    assert_eq!(settings.id, 7);
    assert_eq!(settings.data, "/etc/data");
    assert_eq!(settings.master_key, "k");
    assert_eq!(settings.db.password.as_deref(), Some("pw"));
    assert_eq!(settings.db.host, "db.local");
    assert_eq!(settings.db.user, "postgres");
    assert_eq!(settings.db.port, 5432);
}

#[test]
fn later_files_override_earlier_ones() {
    let s = src();
    let dot = DotPath::new("settings");
    let probe = PathProbe::new();
    let mut settings = Settings::default_in("/srv");
    let first = shape::Settings { id: Some(2), master_key: Some("one".to_owned()), ..empty_file() };
    let second = shape::Settings { master_key: Some("two".to_owned()), ..empty_file() };
    assert!(settings.merge(&s, &dot, first, &probe).is_ok());
    assert!(settings.merge(&s, &dot, second, &probe).is_ok());
    assert_eq!(settings.id, 2);
    assert_eq!(settings.master_key, "two");
    assert!(settings.merge(&s, &dot, empty_file(), &probe).is_ok());
    assert_eq!(settings.master_key, "two");
}

#[test]
fn listeners_are_merged_by_name() {
    let s = src();
    let dot = DotPath::new("settings");
    let probe = PathProbe::new();
    let mut settings = Settings::default_in("/srv");
    let listener = |port: u16| shape::Listener {
        addr: format!("127.0.0.1:{port}"),
        socket: Some(SockAddr::V4 { ip: 0x7f00_0001, port }),
        ip: None,
        tls: None,
    };
    let file = shape::Settings {
        listeners: Some(vec![("main".to_owned(), listener(80)), ("alt".to_owned(), listener(81))]),
        ..empty_file()
    };
    assert!(settings.merge(&s, &dot, file, &probe).is_ok());
    let file = shape::Settings {
        listeners: Some(vec![("main".to_owned(), listener(8000))]),
        ..empty_file()
    };
    assert!(settings.merge(&s, &dot, file, &probe).is_ok());
    assert_eq!(settings.listeners.len(), 2);
    assert_eq!(settings.listeners[0].0, "main");
    assert!(settings.listeners[0].1.addr == SockAddr::V4 { ip: 0x7f00_0001, port: 8000 });
    assert_eq!(settings.listeners[1].0, "alt");
    assert_eq!(find_key(&settings.listeners, &"alt".to_owned()), Some(1));
    assert_eq!(find_key(&settings.listeners, &"other".to_owned()), None);
}

#[test]
fn invalid_listener_address() {
    let s = src();
    let dot = DotPath::new("settings");
    let probe = PathProbe::new();
    let mut settings = Settings::default_in("/srv");
    let file = shape::Settings {
        listeners: Some(vec![(
            "main".to_owned(),
            shape::Listener { addr: "nowhere".to_owned(), socket: None, ip: None, tls: None },
        )]),
        ..empty_file()
    };
    match settings.merge(&s, &dot, file, &probe) {
        Err(e) => assert_eq!(
            invalid_context(e),
            "settings.\"main\".addr invalid: \"nowhere\" file: \"/etc/rfs/config.yaml\""
        ),
        Ok(_) => panic!("address accepted"),
    }
    assert!(settings.listeners.is_empty());
}

#[test]
fn listen_addresses() {
    let sock = SockAddr::V4 { ip: 1, port: 2 };
    assert!(listen_addr(Some(sock), Some(IpAddress::V4(9))) == Some(sock));
    assert!(listen_addr(None, Some(IpAddress::V4(9))) == Some(SockAddr::V4 { ip: 9, port: 8080 }));
    assert!(
        listen_addr(None, Some(IpAddress::V6(5)))
            == Some(SockAddr::V6 { ip: 5, port: 8080, flowinfo: 0, scope_id: 0 })
    );
    assert!(listen_addr(None, None).is_none());
}

#[test]
fn directories_must_exist() {
    let settings = Settings::default_in("/srv");
    let mut probe = PathProbe::new();
    match settings.check_directories(&probe) {
        Err(MergeError::Unprobed(p)) => assert_eq!(p, "/srv/data"),
        _ => panic!("expected an unprobed path"),
    }
    probe.record("/srv/data".to_owned(), Probe::Found(PathKind::Directory));
    probe.record("/srv/tmp".to_owned(), Probe::Missing);
    let e = settings.check_directories(&probe).err().unwrap();
    assert_eq!(invalid_context(e), "settings.tmp does not exist");
    let mut probe = PathProbe::new();
    probe.record("/srv/data".to_owned(), Probe::Found(PathKind::Directory));
    probe.record("/srv/tmp".to_owned(), Probe::Found(PathKind::Directory));
    probe.record("/srv/templates".to_owned(), Probe::Found(PathKind::File));
    let e = settings.check_directories(&probe).err().unwrap();
    assert_eq!(invalid_context(e), "settings.templates.directory is not a directory");
    let mut probe = PathProbe::new();
    for p in ["/srv/data", "/srv/tmp", "/srv/templates"] {
        probe.record(p.to_owned(), Probe::Found(PathKind::Directory));
    }
    assert!(settings.check_directories(&probe).is_ok());
}

#[test]
fn config_formats() {
    assert!(matches!(config_format("/etc/rfs.yaml"), Ok(ConfigFormat::Yaml)));
    assert!(matches!(config_format("/etc/rfs.YML"), Ok(ConfigFormat::Yaml)));
    assert!(matches!(config_format("/etc/rfs.Json"), Ok(ConfigFormat::Json)));
    assert!(matches!(config_format("/etc/rfs.toml"), Ok(ConfigFormat::Unknown)));
    match config_format("/etc/rfs") {
        Err(e) => assert_eq!(
            e.cxt.as_deref(),
            Some("failed to retrieve the file extension for config file: \"/etc/rfs\"")
        ),
        Ok(_) => panic!("no extension"),
    }
    assert_eq!(
        unknown_format_error("/etc/rfs.toml").cxt.as_deref(),
        Some("unknown type of config file: \"/etc/rfs.toml\"")
    );
}

#[test]
fn key_material_from_master_key() {
    let settings = Settings::default_in("/srv");
    let (expected, _) = hkdf::Hkdf::<sha3::Sha3_512>::extract(None, b"rfs_master_key_secret");
    let c = rfs::config::config_from(settings);
    assert_eq!(c.prk, expected.to_vec());
    assert_eq!(c.settings.master_key, "rfs_master_key_secret");
    assert_ne!(c.prk, b"rfs_master_key_secret".to_vec());
}
