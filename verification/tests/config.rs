use native_bot::config::{BotConfig, BotSelectionConfig, NativeApiConfig, DEFAULT_API_BASE_URL};

#[test]
fn effective_proxy_honors_the_toggle() {
    let mut cfg = NativeApiConfig {
        proxy: "  socks5://127.0.0.1:1080  ".to_string(),
        ..Default::default()
    };
    // Disabled: the configured value is kept but never applied.
    assert!(!cfg.proxy_enabled);
    assert_eq!(cfg.effective_proxy(), "");
    // Enabled: the trimmed value is used.
    cfg.proxy_enabled = true;
    assert_eq!(cfg.effective_proxy(), "socks5://127.0.0.1:1080");
}

#[test]
fn api_defaults_inactive_with_default_server() {
    let cfg = NativeApiConfig::default();
    assert!(!cfg.enabled);
    assert_eq!(cfg.base_url, DEFAULT_API_BASE_URL);
    assert_eq!(cfg.base_url, "https://mjapi.shinkuan.me");
    assert!(cfg.key.is_empty());
    assert!(!cfg.is_active());
    assert_eq!(cfg.effective_proxy(), "");
}

#[test]
fn is_active_needs_opt_in_url_and_key() {
    let mut cfg = NativeApiConfig::default();
    cfg.key = "abc".to_string();
    assert!(!cfg.is_active());
    cfg.enabled = true;
    assert!(cfg.is_active());
    cfg.key = " \t\n".to_string();
    assert!(!cfg.is_active());
    cfg.key = "k".to_string();
    cfg.base_url = "\u{3000}".to_string();
    assert!(!cfg.is_active());
    cfg.base_url = " http://127.0.0.1:8080/ ".to_string();
    assert!(cfg.is_active());
}

#[test]
fn model_for_picks_by_mode() {
    let mut cfg = NativeApiConfig::default();
    cfg.model_4p = "four".to_string();
    cfg.model_3p = "three".to_string();
    assert_eq!(cfg.model_for(3), "three");
    assert_eq!(cfg.model_for(4), "four");
    assert_eq!(cfg.model_for(2), "four");
}

fn sample_config() -> BotConfig {
    BotConfig::defaults_with_bots("bot4".to_string(), "bot3".to_string())
}

#[test]
fn bot_defaults() {
    let cfg = sample_config();
    assert!(cfg.enabled);
    assert_eq!(cfg.active_4p, "bot4");
    assert_eq!(cfg.active_3p, "bot3");
    assert!(cfg.active.is_empty());
    assert!(cfg.auto_sync);
    assert_eq!(cfg.dir, "mjai_bot");
    assert_eq!(cfg.selection, BotSelectionConfig::default());
    assert_eq!(cfg.selection.randomize_level, 0);
    assert_eq!(cfg.api, NativeApiConfig::default());
}

#[test]
fn active_for_picks_by_mode() {
    let cfg = sample_config();
    assert_eq!(cfg.active_for(3), "bot3");
    assert_eq!(cfg.active_for(4), "bot4");
    assert_eq!(cfg.active_for(0), "bot4");
}

#[test]
fn migrate_moves_legacy_into_empty_4p() {
    let mut cfg = sample_config();
    cfg.active_4p = String::new();
    cfg.active = "legacy".to_string();
    cfg.migrate_legacy_active();
    assert_eq!(cfg.active_4p, "legacy");
    assert!(cfg.active.is_empty());
    assert_eq!(cfg.active_for(4), "legacy");
    assert_eq!(cfg.active_3p, "bot3");
    // Idempotent.
    cfg.migrate_legacy_active();
    assert_eq!(cfg.active_4p, "legacy");
    assert!(cfg.active.is_empty());
}

#[test]
fn migrate_drops_legacy_when_4p_is_set() {
    let mut cfg = sample_config();
    cfg.active = "legacy".to_string();
    cfg.migrate_legacy_active();
    assert_eq!(cfg.active_4p, "bot4");
    assert!(cfg.active.is_empty());
    let mut empty = sample_config();
    empty.active_4p = String::new();
    empty.migrate_legacy_active();
    assert!(empty.active_4p.is_empty());
    assert!(empty.active.is_empty());
}
