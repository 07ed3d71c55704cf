use tikv_client::client::security::{
    check_key_file, load_key, ChannelSecurity, FileOpen, KeyFileRead, KeyLoadStep, KeyLoader,
    SecurityConfig, SecurityManager,
};

fn config(ca: &str, cert: &str, key: &str) -> SecurityConfig {
    SecurityConfig { ca_path: ca.to_string(), cert_path: cert.to_string(), key_path: key.to_string() }
}

fn expect_read(s: KeyLoadStep) -> String {
    match s {
        KeyLoadStep::ReadFile(p) => p,
        KeyLoadStep::Failed(m) => panic!("failed: {}", m),
        KeyLoadStep::Loaded(_) => panic!("loaded"),
    }
}

fn expect_loaded(s: KeyLoadStep) -> SecurityManager {
    match s {
        KeyLoadStep::Loaded(sm) => sm,
        KeyLoadStep::Failed(m) => panic!("failed: {}", m),
        KeyLoadStep::ReadFile(p) => panic!("read {}", p),
    }
}

fn expect_failed(s: KeyLoadStep) -> String {
    match s {
        KeyLoadStep::Failed(m) => m,
        KeyLoadStep::Loaded(_) => panic!("loaded"),
        KeyLoadStep::ReadFile(p) => panic!("read {}", p),
    }
}

#[test]
fn empty_path_loads_nothing() {
    let r = load_key("CA", "", KeyFileRead::OpenFailed("boom".to_string()));
    assert_eq!(r.unwrap(), Vec::<u8>::new());
}

#[test]
fn check_key_file_outcomes() {
    assert_eq!(check_key_file("CA", "", FileOpen::Failed("x".to_string())), Ok(false));
    assert_eq!(check_key_file("CA", "/ca.pem", FileOpen::Opened), Ok(true));
    assert_eq!(
        check_key_file("CA", "/ca.pem", FileOpen::Failed("NotFound".to_string())),
        Err("failed to open /ca.pem to load CA: NotFound".to_string())
    );
}

#[test]
fn load_key_returns_file_bytes() {
    let r = load_key("CA", "/ca.pem", KeyFileRead::Read(vec![1, 2, 3]));
    assert_eq!(r.unwrap(), vec![1, 2, 3]);
}

#[test]
fn load_key_open_failure_message() {
    let r = load_key("CA", "/ca.pem", KeyFileRead::OpenFailed("NotFound".to_string()));
    assert_eq!(r.unwrap_err(), "failed to open /ca.pem to load CA: NotFound");
}

#[test]
fn load_key_read_failure_message() {
    let r = load_key("private key", "/k.pem", KeyFileRead::ReadFailed("Interrupted".to_string()));
    assert_eq!(r.unwrap_err(), "failed to load private key from path /k.pem: Interrupted");
}

#[test]
fn default_config_is_empty() {
    let c = SecurityConfig::default();
    assert_eq!(c, config("", "", ""));
    assert_eq!(c.clone(), c);
}

#[test]
fn default_config_loads_without_reading_and_connects_insecurely() {
    let mut l = KeyLoader::new(&SecurityConfig::default());
    let sm = expect_loaded(SecurityManager::new(&mut l, None));
    assert!(matches!(sm.connect(), ChannelSecurity::Insecure));
}

#[test]
fn keys_are_read_in_order_and_connect_securely() {
    let mut l = KeyLoader::new(&config("/ca", "/cert", "/key"));
    assert_eq!(expect_read(SecurityManager::new(&mut l, None)), "/ca");
    assert_eq!(expect_read(SecurityManager::new(&mut l, Some(KeyFileRead::Read(vec![1])))), "/cert");
    assert_eq!(expect_read(SecurityManager::new(&mut l, Some(KeyFileRead::Read(vec![2])))), "/key");
    let sm = expect_loaded(SecurityManager::new(&mut l, Some(KeyFileRead::Read(vec![3]))));
    match sm.connect() {
        ChannelSecurity::Secure { root_cert, cert, private_key } => {
            assert_eq!(root_cert, vec![1]);
            assert_eq!(cert, vec![2]);
            assert_eq!(private_key, vec![3]);
        }
        ChannelSecurity::Insecure => panic!("expected TLS"),
    }
}

#[test]
fn empty_paths_are_skipped() {
    let mut l = KeyLoader::new(&config("", "/cert", ""));
    assert_eq!(expect_read(SecurityManager::new(&mut l, None)), "/cert");
    let sm = expect_loaded(SecurityManager::new(&mut l, Some(KeyFileRead::Read(vec![4]))));
    assert!(matches!(sm.connect(), ChannelSecurity::Insecure));
}

#[test]
fn first_failing_key_ends_loading() {
    let mut l = KeyLoader::new(&config("/ca", "/cert", "/key"));
    assert_eq!(expect_read(SecurityManager::new(&mut l, None)), "/ca");
    assert_eq!(expect_read(SecurityManager::new(&mut l, Some(KeyFileRead::Read(vec![1])))), "/cert");
    let m = expect_failed(SecurityManager::new(&mut l, Some(KeyFileRead::OpenFailed("e1".to_string()))));
    assert_eq!(m, "failed to open /cert to load certificate: e1");
}

#[test]
fn ca_read_failure_is_reported() {
    let mut l = KeyLoader::new(&config("/ca", "/cert", "/key"));
    assert_eq!(expect_read(SecurityManager::new(&mut l, None)), "/ca");
    let m = expect_failed(SecurityManager::new(&mut l, Some(KeyFileRead::ReadFailed("e0".to_string()))));
    assert_eq!(m, "failed to load CA from path /ca: e0");
}

#[test]
fn clear_key_zeroes_private_key() {
    let mut l = KeyLoader::new(&config("/ca", "", "/key"));
    assert_eq!(expect_read(SecurityManager::new(&mut l, None)), "/ca");
    assert_eq!(expect_read(SecurityManager::new(&mut l, Some(KeyFileRead::Read(vec![7])))), "/key");
    let mut sm = expect_loaded(SecurityManager::new(&mut l, Some(KeyFileRead::Read(vec![5, 6]))));
    sm.clear_key();
    match sm.connect() {
        ChannelSecurity::Secure { root_cert, cert, private_key } => {
            assert_eq!(root_cert, vec![7]);
            assert_eq!(cert, Vec::<u8>::new());
            assert_eq!(private_key, vec![0, 0]);
        }
        ChannelSecurity::Insecure => panic!("expected TLS"),
    }
}

#[test]
fn loader_keeps_no_copy_of_loaded_keys() {
    let mut l = KeyLoader::new(&config("/ca", "", "/key"));
    assert_eq!(expect_read(SecurityManager::new(&mut l, None)), "/ca");
    assert_eq!(expect_read(SecurityManager::new(&mut l, Some(KeyFileRead::Read(vec![1])))), "/key");
    let _sm = expect_loaded(SecurityManager::new(&mut l, Some(KeyFileRead::Read(vec![2]))));
    // The keys went into the material: loading starts over from the CA.
    assert_eq!(expect_read(SecurityManager::new(&mut l, None)), "/ca");
}
