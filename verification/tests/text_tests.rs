use gun_connect::common::{language_from_code, Language, NetworkEnvironment};
use gun_connect::secret::SecretString;
use gun_connect::text::{contains, is_blank, starts_with, strip_prefix, text_eq};
use gun_connect::ui::actions::{import_keypair, legacy_store_account, store_account_for_network, store_name};
use gun_connect::ui::controller::is_localhost;
use gun_connect::ui::load::{parse_legacy_entry, strip_network_prefix};
use gun_connect::ui::relay::{check_discovered_relay_script, check_relay_script, escape_single_quotes, relay_reply_ok};
use gun_connect::ui::state::{biometric_enabled_default, biometric_pref_text, read_relay_url};

#[test]
fn blank_texts_are_white_space_only() {
    assert!(is_blank(""));
    assert!(is_blank("  \t\n"));
    assert!(is_blank("\u{a0}\u{3000}"));
    assert!(!is_blank(" wss://relay "));
}

#[test]
fn prefix_helpers() {
    assert!(starts_with("mn:SABC", "mn:"));
    assert!(!starts_with("mn", "mn:"));
    assert_eq!(strip_prefix("tn:SXYZ", "tn:"), Some("SXYZ".to_string()));
    assert_eq!(strip_prefix("SXYZ", "tn:"), None);
    assert!(text_eq("abc", "abc"));
    assert!(!text_eq("abc", "abd"));
}

#[test]
fn substring_search() {
    assert!(contains("{\"ok\":true,\"ms\":12}", "\"ok\":true"));
    assert!(!contains("{\"ok\":false}", "\"ok\":true"));
    assert!(contains("abc", ""));
    assert!(!contains("ab", "abc"));
}

#[test]
fn language_codes() {
    assert_eq!(language_from_code("hu"), Language::Hungarian);
    assert_eq!(language_from_code("fr"), Language::French);
    assert_eq!(language_from_code("de"), Language::German);
    assert_eq!(language_from_code("es"), Language::Spanish);
    assert_eq!(language_from_code("en"), Language::English);
    assert_eq!(language_from_code("HU"), Language::English);
    assert_eq!(language_from_code(""), Language::English);
}

#[test]
fn store_accounts() {
    assert_eq!(store_name(), "gun-connect");
    assert_eq!(store_account_for_network(NetworkEnvironment::Production), "mainnet_account");
    assert_eq!(store_account_for_network(NetworkEnvironment::Test), "testnet_account");
    assert_eq!(legacy_store_account(), "default_account");
}

#[test]
fn import_pairs_secret_with_derived_key() {
    assert_eq!(
        import_keypair("SSECRET".to_string(), Some("GPUB".to_string())),
        Some(("GPUB".to_string(), "SSECRET".to_string()))
    );
    assert_eq!(import_keypair("bad".to_string(), None), None);
}

#[test]
fn local_hosts() {
    assert!(is_localhost(&Some("localhost".to_string())));
    assert!(is_localhost(&Some("127.0.0.1".to_string())));
    assert!(is_localhost(&Some("::1".to_string())));
    assert!(!is_localhost(&Some("example.org".to_string())));
    assert!(!is_localhost(&Some("localhost.example.org".to_string())));
    assert!(!is_localhost(&None));
}

#[test]
fn stored_preferences() {
    assert!(biometric_enabled_default(Some("true".to_string())));
    assert!(!biometric_enabled_default(Some("false".to_string())));
    assert!(!biometric_enabled_default(Some("TRUE".to_string())));
    assert!(!biometric_enabled_default(None));
    assert_eq!(biometric_pref_text(true), "true");
    assert_eq!(biometric_pref_text(false), "false");
    assert_eq!(read_relay_url(Some("wss://r".to_string())), "wss://r");
    assert_eq!(read_relay_url(None), "");
}

#[test]
fn secret_strings_keep_their_text() {
    let s = SecretString::new("SABC".to_string());
    assert_eq!(s.as_str(), "SABC");
    assert_eq!(s.duplicate().as_str(), "SABC");
}

#[test]
fn network_prefixes() {
    assert_eq!(strip_network_prefix("mn:SA", NetworkEnvironment::Production), "SA");
    assert_eq!(strip_network_prefix("tn:SA", NetworkEnvironment::Production), "tn:SA");
    assert_eq!(strip_network_prefix("tn:SA", NetworkEnvironment::Test), "SA");
    assert_eq!(strip_network_prefix("SA", NetworkEnvironment::Test), "SA");
    assert_eq!(parse_legacy_entry("tn:ST"), (NetworkEnvironment::Test, "ST".to_string()));
    assert_eq!(parse_legacy_entry("mn:SM"), (NetworkEnvironment::Production, "SM".to_string()));
    assert_eq!(parse_legacy_entry("SPLAIN"), (NetworkEnvironment::Production, "SPLAIN".to_string()));
    assert_eq!(parse_legacy_entry("tn:"), (NetworkEnvironment::Test, String::new()));
}

#[test]
fn relay_scripts() {
    assert_eq!(escape_single_quotes("it's"), "it\\'s");
    assert_eq!(escape_single_quotes("plain"), "plain");
    assert_eq!(check_relay_script("wss://r/gun"), "window.__gun_bridge.checkRelay('wss://r/gun')");
    assert_eq!(check_relay_script("a'b"), "window.__gun_bridge.checkRelay('a\\'b')");
    assert_eq!(
        check_discovered_relay_script("wss://r"),
        "window.__gun_bridge.checkRelay('wss://r', 4000)"
    );
}

#[test]
fn relay_replies() {
    assert!(relay_reply_ok(&Some("{\"ok\":true}".to_string())));
    assert!(!relay_reply_ok(&Some("{\"ok\":false}".to_string())));
    assert!(!relay_reply_ok(&Some(String::new())));
    assert!(!relay_reply_ok(&None));
}
