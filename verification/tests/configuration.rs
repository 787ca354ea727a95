use tbl::config::{
    config_candidates, load_config, merge_config, ConfigFormat, TblConfig, CONFIG_FILE, DEFAULT_ADDR,
};
use tbl::gate::{Access, Presented};

fn some(text: &str) -> Option<String> {
    Some(text.to_string())
}

fn source(tag: &str) -> TblConfig {
    TblConfig {
        git_url: some(&format!("{}-git", tag)),
        addr: some(&format!("{}-addr", tag)),
        tls_cert: some(&format!("{}-cert", tag)),
        tls_key: some(&format!("{}-key", tag)),
        basic_user: some(&format!("{}-user", tag)),
        basic_pass: some(&format!("{}-pass", tag)),
    }
}

#[test]
fn without_any_source_only_the_address_is_set() {
    let cfg = merge_config(TblConfig::empty(), TblConfig::empty(), TblConfig::empty());
    assert_eq!(cfg, TblConfig { addr: some("127.0.0.1:1234"), ..TblConfig::empty() });
    assert_eq!(DEFAULT_ADDR, "127.0.0.1:1234");
    assert!(!cfg.tls_enabled());
}

#[test]
fn flags_beat_environment_and_file() {
    assert_eq!(merge_config(source("flag"), source("env"), source("file")), source("flag"));
}

#[test]
fn environment_beats_file() {
    assert_eq!(merge_config(TblConfig::empty(), source("env"), source("file")), source("env"));
}

#[test]
fn file_beats_the_built_in_address() {
    assert_eq!(merge_config(TblConfig::empty(), TblConfig::empty(), source("file")), source("file"));
}

#[test]
fn each_setting_is_merged_on_its_own() {
    let flags = TblConfig { git_url: some("flag-git"), ..TblConfig::empty() };
    let env = TblConfig { git_url: some("env-git"), tls_cert: some("env-cert"), ..TblConfig::empty() };
    let file = TblConfig {
        tls_cert: some("file-cert"),
        tls_key: some("file-key"),
        basic_user: some("file-user"),
        ..TblConfig::empty()
    };
    assert_eq!(
        merge_config(flags, env, file),
        TblConfig {
            git_url: some("flag-git"),
            addr: some("127.0.0.1:1234"),
            tls_cert: some("env-cert"),
            tls_key: some("file-key"),
            basic_user: some("file-user"),
            basic_pass: None,
        }
    );
}

#[test]
fn tls_needs_certificate_and_key() {
    let mut cfg = TblConfig::empty();
    assert!(!cfg.tls_enabled());
    cfg.tls_cert = some("cert.pem");
    assert!(!cfg.tls_enabled());
    cfg.tls_key = some("key.pem");
    assert!(cfg.tls_enabled());
    cfg.tls_cert = None;
    assert!(!cfg.tls_enabled());
}

#[test]
fn chosen_port_is_written_back() {
    let mut cfg = source("x");
    cfg.set_port("127.0.0.1", 1237);
    assert_eq!(cfg, TblConfig { addr: some("127.0.0.1:1237"), ..source("x") });
}

#[test]
fn git_url_is_set_by_the_setup() {
    let mut cfg = source("x");
    cfg.set_git_url("https://example.org/ui.git");
    assert_eq!(cfg, TblConfig { git_url: some("https://example.org/ui.git"), ..source("x") });
}

#[test]
fn guard_takes_the_credentials_of_the_configuration() {
    let guard = source("x").guard("secret");
    assert_eq!(guard.secret, "secret");
    assert_eq!(guard.basic_user, some("x-user"));
    assert_eq!(guard.basic_pass, some("x-pass"));
    let open = TblConfig::empty().guard("secret");
    assert_eq!(
        open.authorize(&Presented { authorization: None, cookie: Some("tbl_token=secret") }),
        Access::Granted
    );
}

#[test]
fn files_are_tried_in_a_fixed_order() {
    assert_eq!(
        config_candidates(),
        vec![
            ("config.json".to_string(), ConfigFormat::Json),
            ("config.yaml".to_string(), ConfigFormat::Yaml),
            ("config.yml".to_string(), ConfigFormat::Yaml),
            ("config.toml".to_string(), ConfigFormat::Toml),
        ]
    );
    assert_eq!(CONFIG_FILE, "config.json");
}

#[test]
fn first_readable_file_decides() {
    assert_eq!(load_config(vec![]), None);
    assert_eq!(load_config(vec![None, None, None, None]), None);
    assert_eq!(
        load_config(vec![None, Some(source("yaml")), None, Some(source("toml"))]),
        Some(source("yaml"))
    );
    assert_eq!(
        load_config(vec![Some(source("json")), Some(source("yaml")), None, None]),
        Some(source("json"))
    );
    assert_eq!(load_config(vec![None, None, None, Some(source("toml"))]), Some(source("toml")));
}
