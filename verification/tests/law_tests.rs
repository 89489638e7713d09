use gun_connect::common::NetworkEnvironment;
use gun_connect::secret::SecretString;
use gun_connect::ui::controller::{AppController, BiometricStep};
use gun_connect::ui::load::{parse_legacy_entry, strip_network_prefix, LoadAction, LoadEvent};
use gun_connect::ui::relay::escape_single_quotes;
use gun_connect::ui::save::{SaveAction, SaveEvent, SaveStart};
use gun_connect::ui::state::use_wallet_state;
use gun_connect::common::Language;
use gun_connect::ui::i18n::{ui_str, UiText};
use gun_connect::ui::passkey::PasskeyResult;
use gun_connect::ui::relay::{DiscoveredRelay, RelayEntry};
use gun_connect::ui::state::AuthState;
use gun_connect::ui::tabs::info::unconnected_rows;
use std::collections::HashMap;

#[test]
fn legacy_prefix_round_trip() {
    for net in [NetworkEnvironment::Production, NetworkEnvironment::Test] {
        let prefix = match net {
            NetworkEnvironment::Production => "mn:",
            NetworkEnvironment::Test => "tn:",
        };
        for secret in ["", "SABC", "tn:nested", "mn:"] {
            let stored = format!("{}{}", prefix, secret);
            assert_eq!(parse_legacy_entry(&stored), (net, secret.to_string()));
            assert_eq!(strip_network_prefix(&stored, net), secret);
        }
    }
}

#[test]
fn shown_key_after_load_prefers_mainnet() {
    let mut c = AppController::new(use_wallet_state(None, None));
    c.s.testnet_public_key = Some("GT".to_string());
    c.s.testnet_secret_key = Some(SecretString::new("ST".to_string()));
    let (mut session, _) = c.load_all_from_store(true);
    let mut action = c.advance_load(&mut session, LoadEvent::StoreRead(Ok("SM".to_string())));
    assert!(matches!(action, LoadAction::DerivePublicKey { network: NetworkEnvironment::Production, .. }));
    action = c.advance_load(&mut session, LoadEvent::PublicKey(Some("GM".to_string())));
    assert!(matches!(action, LoadAction::ReadStore { account: "testnet_account" }));
    action = c.advance_load(&mut session, LoadEvent::StoreRead(Err("none".to_string())));
    assert!(matches!(action, LoadAction::ReadStore { account: "default_account" }));
    action = c.advance_load(&mut session, LoadEvent::StoreRead(Err("none".to_string())));
    assert!(matches!(action, LoadAction::Done(_)));
    assert_eq!(c.s.public_key, Some("GM".to_string()));
    assert_eq!(c.s.secret_key_hidden.as_ref().unwrap().as_str(), "SM");
}

#[test]
fn legacy_migration_keeps_a_present_testnet_key() {
    let mut c = AppController::new(use_wallet_state(None, None));
    c.s.testnet_public_key = Some("GT".to_string());
    c.s.testnet_secret_key = Some(SecretString::new("ST".to_string()));
    let (mut session, _) = c.load_all_from_store(true);
    c.advance_load(&mut session, LoadEvent::StoreRead(Err("none".to_string())));
    c.advance_load(&mut session, LoadEvent::StoreRead(Err("none".to_string())));
    let action = c.advance_load(&mut session, LoadEvent::StoreRead(Ok("tn:SNEW".to_string())));
    assert!(matches!(action, LoadAction::DerivePublicKey { network: NetworkEnvironment::Test, .. }));
    c.advance_load(&mut session, LoadEvent::PublicKey(Some("GNEW".to_string())));
    assert_eq!(c.s.testnet_public_key, Some("GT".to_string()));
    assert_eq!(c.s.testnet_secret_key.as_ref().unwrap().as_str(), "ST");
}

#[test]
fn encrypted_save_never_writes_plain_secrets() {
    let mut c = AppController::new(use_wallet_state(Some("true".to_string()), None));
    c.s.prf_key = Some("K".to_string());
    c.s.mainnet_secret_key = Some(SecretString::new("SM".to_string()));
    let (mut session, action) = match c.save_all_to_store(false) {
        SaveStart::Begin(s, a) => (s, a),
        _ => panic!("the save should begin"),
    };
    assert!(matches!(action, SaveAction::Encrypt { .. }));
    let action = c.advance_save(&mut session, SaveEvent::Encrypted(Ok("CIPHER".to_string())));
    match action {
        SaveAction::WriteStore { account, data } => {
            assert_eq!(account, "mainnet_account");
            assert_eq!(data, "CIPHER");
        }
        _ => panic!("expected a write"),
    }
}

#[test]
fn biometrics_stay_on() {
    let mut c = AppController::new(use_wallet_state(Some("true".to_string()), None));
    assert!(matches!(c.toggle_biometric(false), BiometricStep::AlreadyEnabled));
    c.finish_biometric_registration(Err("late failure".to_string()));
    assert!(c.s.biometric_enabled);
}

#[test]
fn setting_one_network_keeps_the_other() {
    let mut c = AppController::new(use_wallet_state(None, None));
    c.generate_key_for_network(NetworkEnvironment::Production, "GM".to_string(), "SM".to_string());
    c.s.testnet_input_value = "ST".to_string();
    c.import_key_for_network(NetworkEnvironment::Test, Some("GT".to_string()));
    assert_eq!(c.s.mainnet_public_key, Some("GM".to_string()));
    assert_eq!(c.s.mainnet_secret_key.as_ref().unwrap().as_str(), "SM");
    c.generate_key_for_network(NetworkEnvironment::Production, "GM2".to_string(), "SM2".to_string());
    assert_eq!(c.s.testnet_public_key, Some("GT".to_string()));
    assert_eq!(c.s.testnet_secret_key.as_ref().unwrap().as_str(), "ST");
}

#[test]
fn escaped_quotes_follow_backslashes() {
    let e: Vec<char> = escape_single_quotes("''a'b'").chars().collect();
    assert_eq!(e.iter().collect::<String>(), "\\'\\'a\\'b\\'");
    for (j, c) in e.iter().enumerate() {
        if *c == '\'' {
            assert!(j > 0 && e[j - 1] == '\\');
        }
    }
}

#[test]
fn saved_keys_load_back() {
    let mut c = AppController::new(use_wallet_state(None, None));
    c.s.mainnet_secret_key = Some(SecretString::new("SMAINKEY".to_string()));
    c.s.testnet_secret_key = Some(SecretString::new("STESTKEY".to_string()));
    let mut stores: HashMap<String, String> = HashMap::new();
    let (mut session, mut action) = match c.save_all_to_store(true) {
        SaveStart::Begin(s, a) => (s, a),
        _ => panic!("the save should begin"),
    };
    loop {
        let event = match action {
            SaveAction::WriteStore { account, data } => {
                stores.insert(account.to_string(), data);
                SaveEvent::Written(Ok(()))
            }
            SaveAction::Done(_) => break,
            _ => panic!("no encryption on localhost"),
        };
        action = c.advance_save(&mut session, event);
    }
    let mut fresh = AppController::new(use_wallet_state(None, None));
    let (mut session, mut action) = fresh.load_all_from_store(true);
    let mut derived = Vec::new();
    loop {
        let event = match action {
            LoadAction::ReadStore { account } => LoadEvent::StoreRead(stores.get(account).cloned().ok_or(String::new())),
            LoadAction::DerivePublicKey { network, secret } => {
                derived.push((network, secret.as_str().to_string()));
                LoadEvent::PublicKey(Some(format!("G-{}", secret.as_str())))
            }
            LoadAction::Done(_) => break,
            _ => panic!("no encryption on localhost"),
        };
        action = fresh.advance_load(&mut session, event);
    }
    assert_eq!(
        derived,
        vec![
            (NetworkEnvironment::Production, "SMAINKEY".to_string()),
            (NetworkEnvironment::Test, "STESTKEY".to_string())
        ]
    );
    assert_eq!(fresh.s.mainnet_secret_key.as_ref().unwrap().as_str(), "SMAINKEY");
    assert_eq!(fresh.s.testnet_secret_key.as_ref().unwrap().as_str(), "STESTKEY");
}

#[test]
fn every_text_is_present() {
    let keys = [
        UiText::ToastUpdateAvailable, UiText::GateTitle, UiText::RelayStatusConnected,
        UiText::RelayStatusUnreachable, UiText::RelayStatusChecking, UiText::RelayStatusNotConfigured,
        UiText::BtnCheckRelay, UiText::LblRelayStatus, UiText::BtnFindRelays, UiText::LblDiscoveredRelays,
        UiText::RelayDiscovering, UiText::RelayNoResults, UiText::BtnConnectRelay, UiText::BtnRemoveRelay,
        UiText::BtnForgetRelay, UiText::BtnStopSearch,
    ];
    for lang in [Language::English, Language::French, Language::German, Language::Hungarian, Language::Spanish] {
        for key in keys {
            assert!(!ui_str(lang, key).is_empty());
        }
    }
}

#[test]
fn sign_in_needs_passkey_or_localhost() {
    let mut c = AppController::new(use_wallet_state(Some("true".to_string()), None));
    c.start_auth(false);
    c.finish_auth(Ok(PasskeyResult { success: false, prf_key: None, error: None }));
    assert_ne!(c.s.auth_state, AuthState::Authenticated);
    let mut d = AppController::new(use_wallet_state(Some("true".to_string()), None));
    d.start_auth(true);
    assert_eq!(d.s.auth_state, AuthState::Authenticating);
    d.finish_local_auth();
    assert_eq!(d.s.auth_state, AuthState::Authenticated);
}

#[test]
fn offered_relays_are_the_unconnected() {
    let connected = vec![RelayEntry { url: "wss://a".to_string(), checking: false, reachable: None }];
    let discovered = vec![
        DiscoveredRelay { url: "wss://a".to_string(), reachable: None },
        DiscoveredRelay { url: "wss://b".to_string(), reachable: None },
        DiscoveredRelay { url: "wss://a".to_string(), reachable: Some(true) },
    ];
    let rows = unconnected_rows(&discovered, &connected);
    let urls: Vec<&str> = rows.iter().map(|r| r.url.as_str()).collect();
    assert_eq!(urls, vec!["wss://b"]);
}

#[test]
fn keys_survive_passkey_save_and_load() {
    let mut c = AppController::new(use_wallet_state(Some("true".to_string()), None));
    c.s.mainnet_secret_key = Some(SecretString::new("SMAINKEY".to_string()));
    c.s.testnet_secret_key = Some(SecretString::new("STESTKEY".to_string()));
    let mut stores: HashMap<String, String> = HashMap::new();
    let (mut session, mut action) = match c.save_all_to_store(false) {
        SaveStart::Begin(s, a) => (s, a),
        _ => panic!("the save should begin"),
    };
    assert!(matches!(action, SaveAction::PasskeyInit));
    loop {
        let event = match action {
            SaveAction::PasskeyInit => {
                SaveEvent::Passkey(Ok(PasskeyResult { success: true, prf_key: Some("K".to_string()), error: None }))
            }
            SaveAction::Encrypt { plaintext, prf } => SaveEvent::Encrypted(Ok(format!("{}|{}", prf, plaintext.as_str()))),
            SaveAction::WriteStore { account, data } => {
                stores.insert(account.to_string(), data);
                SaveEvent::Written(Ok(()))
            }
            SaveAction::Done(_) => break,
            SaveAction::Idle => panic!("the save stalled"),
        };
        action = c.advance_save(&mut session, event);
    }
    assert_eq!(stores["mainnet_account"], "K|SMAINKEY");
    assert_eq!(c.s.prf_key, Some("K".to_string()));

    let mut fresh = AppController::new(use_wallet_state(Some("true".to_string()), None));
    fresh.s.prf_key = c.s.prf_key.clone();
    let (mut session, mut action) = fresh.load_all_from_store(false);
    loop {
        let event = match action {
            LoadAction::ReadStore { account } => LoadEvent::StoreRead(stores.get(account).cloned().ok_or(String::new())),
            LoadAction::Decrypt { data, prf } => {
                let head = format!("{}|", prf);
                LoadEvent::Decrypted(data.strip_prefix(head.as_str()).map(|x| x.to_string()).ok_or(String::new()))
            }
            LoadAction::DerivePublicKey { secret, .. } => LoadEvent::PublicKey(Some(format!("G-{}", secret.as_str()))),
            LoadAction::Done(_) => break,
            _ => panic!("no passkey needed on load"),
        };
        action = fresh.advance_load(&mut session, event);
    }
    assert_eq!(fresh.s.mainnet_secret_key.as_ref().unwrap().as_str(), "SMAINKEY");
    assert_eq!(fresh.s.testnet_secret_key.as_ref().unwrap().as_str(), "STESTKEY");
    assert_eq!(fresh.s.public_key, Some("G-SMAINKEY".to_string()));
    assert_eq!(fresh.s.secret_key_hidden.as_ref().unwrap().as_str(), "SMAINKEY");
}

#[test]
fn keys_survive_a_filled_legacy_store() {
    let mut c = AppController::new(use_wallet_state(None, None));
    c.s.mainnet_secret_key = Some(SecretString::new("SMAINKEY".to_string()));
    c.s.testnet_secret_key = Some(SecretString::new("STESTKEY".to_string()));
    let mut stores: HashMap<String, String> = HashMap::new();
    let (mut session, mut action) = match c.save_all_to_store(true) {
        SaveStart::Begin(s, a) => (s, a),
        _ => panic!("the save should begin"),
    };
    loop {
        let event = match action {
            SaveAction::WriteStore { account, data } => {
                stores.insert(account.to_string(), data);
                SaveEvent::Written(Ok(()))
            }
            SaveAction::Done(_) => break,
            _ => panic!("no encryption on localhost"),
        };
        action = c.advance_save(&mut session, event);
    }
    stores.insert("default_account".to_string(), "tn:SOLDTEST".to_string());
    let mut fresh = AppController::new(use_wallet_state(None, None));
    let (mut session, mut action) = fresh.load_all_from_store(true);
    let mut derived = Vec::new();
    loop {
        let event = match action {
            LoadAction::ReadStore { account } => LoadEvent::StoreRead(stores.get(account).cloned().ok_or(String::new())),
            LoadAction::DerivePublicKey { network, secret } => {
                derived.push((network, secret.as_str().to_string()));
                LoadEvent::PublicKey(Some(format!("G-{}", secret.as_str())))
            }
            LoadAction::Done(_) => break,
            _ => panic!("no encryption on localhost"),
        };
        action = fresh.advance_load(&mut session, event);
    }
    assert_eq!(derived.len(), 3);
    assert_eq!(fresh.s.testnet_secret_key.as_ref().unwrap().as_str(), "STESTKEY");
    assert_eq!(fresh.s.testnet_public_key, Some("G-STESTKEY".to_string()));
    assert_eq!(fresh.s.mainnet_secret_key.as_ref().unwrap().as_str(), "SMAINKEY");
    assert_eq!(fresh.s.public_key, Some("G-SMAINKEY".to_string()));
    assert_eq!(fresh.s.secret_key_hidden.as_ref().unwrap().as_str(), "SMAINKEY");
}
