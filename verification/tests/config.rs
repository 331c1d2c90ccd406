use dd_ftp::config::{connect_check, start_path};
use dd_ftp::config::connection_from_env;
use dd_ftp::model::Protocol;
use dd_ftp::config::{base64_nopad, host_spec, sha256_fingerprint, AppConfig, CoreError, SecretStore};
use dd_ftp::config::{host_key_answer, host_key_step, HostKeyStep, KnownHost};

#[test]
fn blank_editor_is_unset() {
    let cfg = AppConfig::with_editor("   ");
    assert_eq!(cfg.editor, None);
}

#[test]
fn editor_is_trimmed_and_read_back() {
    let cfg = AppConfig::with_editor("  hx  ");
    assert_eq!(cfg.editor.as_deref(), Some("hx"));
    assert_eq!(cfg.editor_or_empty(), "hx");
    assert_eq!(AppConfig::default().editor_or_empty(), "");
}

#[test]
fn keyring_names() {
    assert_eq!(SecretStore::service_name(), "dd_ftp");
    assert_eq!(
        SecretStore::password_key("site", "bob", "h.example", 2121),
        "site:site|user:bob|host:h.example|port:2121|password"
    );
}

#[test]
fn host_spec_brackets_non_default_ports() {
    assert_eq!(host_spec("example.com", 22), "example.com");
    assert_eq!(host_spec("example.com", 2222), "[example.com]:2222");
}

#[test]
fn base64_without_padding() {
    assert_eq!(base64_nopad(b""), "");
    assert_eq!(base64_nopad(b"f"), "Zg");
    assert_eq!(base64_nopad(b"fo"), "Zm8");
    assert_eq!(base64_nopad(b"foo"), "Zm9v");
    assert_eq!(base64_nopad(b"foob"), "Zm9vYg");
    assert_eq!(base64_nopad(&[0xfb, 0xff]), "+/8");
    assert_eq!(sha256_fingerprint(b"foobar"), "SHA256:Zm9vYmFy");
}

#[test]
fn core_error_messages() {
    assert_eq!(CoreError::NotConnected.message(), "not connected");
    assert_eq!(CoreError::Unsupported("chmod").message(), "unsupported operation: chmod");
}

#[test]
fn env_connection_defaults_and_values() {
    let c = connection_from_env(None, None, None, None, None, None, None);
    assert_eq!(c.host, "127.0.0.1");
    assert_eq!(c.name, "127.0.0.1");
    assert_eq!(c.port, 22);
    assert_eq!(c.username, "user");
    assert_eq!(c.initial_path, "/");
    assert_eq!(c.protocol, Protocol::Sftp);
    assert_eq!(c.password, None);
    let s = |x: &str| Some(x.to_string());
    let c = connection_from_env(s("ex.org"), None, s("2222"), s("bob"), s("pw"), s("/k"), s("/srv"));
    assert_eq!(c.name, "ex.org");
    assert_eq!(c.port, 2222);
    assert_eq!(c.password.as_deref(), Some("pw"));
    assert_eq!(c.private_key.as_deref(), Some("/k"));
    assert_eq!(c.initial_path, "/srv");
    let c = connection_from_env(None, s("mine"), s("70000"), None, None, None, None);
    assert_eq!(c.name, "mine");
    assert_eq!(c.port, 22);
    let c = connection_from_env(None, None, s("+21"), None, None, None, None);
    assert_eq!(c.port, 21);
}

#[test]
fn connect_check_names_the_first_missing_setting() {
    let mut c = dd_ftp::model::ConnectionInfo::default();
    assert_eq!(connect_check(&c).unwrap_err(), "Connect failed: username is required");
    c.username = "me".to_string();
    assert!(connect_check(&c).is_ok());
    c.port = 0;
    assert_eq!(connect_check(&c).unwrap_err(), "Connect failed: port must be > 0");
    c.name = " ".to_string();
    assert_eq!(connect_check(&c).unwrap_err(), "Connect failed: label/name is required");
    c.initial_path = "  ".to_string();
    assert_eq!(start_path(&c), "/");
    c.initial_path = "/srv".to_string();
    assert_eq!(start_path(&c), "/srv");
}

#[test]
fn nul_bytes_mark_binary() {
    assert!(dd_ftp::config::looks_binary_bytes(b"ab\0cd"));
    assert!(!dd_ftp::config::looks_binary_bytes(b"plain text\n"));
    assert!(!dd_ftp::config::looks_binary_bytes(b""));
}

#[test]
fn known_host_keys_are_trusted_and_others_offered() {
    let hash = [0u8, 1, 2];
    assert!(matches!(host_key_step(KnownHost::Match, "example.com", 22, &hash), HostKeyStep::Trusted));
    match host_key_step(KnownHost::Failure, "example.com", 2222, &hash) {
        HostKeyStep::Refused(m) => assert_eq!(m, "host key check failed for example.com:2222"),
        other => panic!("unexpected {other:?}"),
    }
    match host_key_step(KnownHost::Mismatch, "example.com", 22, &hash) {
        HostKeyStep::Ask(offer) => {
            assert_eq!(offer.host, "example.com");
            assert_eq!(offer.port, 22);
            assert_eq!(offer.fingerprint, base64_nopad(&hash));
            assert_eq!(format!("SHA256:{}", offer.fingerprint), sha256_fingerprint(&hash));
            assert!(offer.changed);
        }
        other => panic!("unexpected {other:?}"),
    }
    match host_key_step(KnownHost::NotFound, "h", 1, &hash) {
        HostKeyStep::Ask(offer) => assert!(!offer.changed),
        other => panic!("unexpected {other:?}"),
    }
    assert!(host_key_answer(true, "h", 22).is_ok());
    assert_eq!(host_key_answer(false, "h", 22), Err("host key rejected for h:22".to_string()));
}
