use gun_connect::common::{Language, NetworkEnvironment};
use gun_connect::secret::SecretString;
use gun_connect::ui::controller::{AppController, AuthStart, BiometricStep, GraphWrite, RegistrationOutcome, SeaRequest};
use gun_connect::ui::passkey::PasskeyResult;
use gun_connect::ui::relay::DiscoveredRelay;
use gun_connect::ui::state::{use_wallet_state, AuthState, SeaKeyPair};
use gun_connect::ui::status::TxStatus;
use gun_connect::ui::tabs::Tab;

fn controller() -> AppController {
    AppController::new(use_wallet_state(None, None))
}

fn with_biometrics() -> AppController {
    AppController::new(use_wallet_state(Some("true".to_string()), Some("wss://relay.example/gun".to_string())))
}

fn passkey(success: bool, prf: Option<&str>, error: Option<&str>) -> PasskeyResult {
    PasskeyResult {
        success,
        prf_key: prf.map(|s| s.to_string()),
        error: error.map(|s| s.to_string()),
    }
}

fn pair(pub_key: &str) -> SeaKeyPair {
    SeaKeyPair {
        pub_key: pub_key.to_string(),
        epub: "EPUB".to_string(),
        priv_key: SecretString::new("PRIV".to_string()),
        epriv: SecretString::new("EPRIV".to_string()),
    }
}

#[test]
fn initial_state_follows_stored_preferences() {
    let s = use_wallet_state(None, None);
    assert!(!s.biometric_enabled);
    assert_eq!(s.auth_state, AuthState::Authenticated);
    assert_eq!(s.gun_relay_url, "");
    assert_eq!(s.language, Language::English);
    assert_eq!(s.active_tab, Tab::Info);
    let s = use_wallet_state(Some("true".to_string()), Some("wss://r".to_string()));
    assert!(s.biometric_enabled);
    assert_eq!(s.auth_state, AuthState::Pending);
    assert_eq!(s.gun_relay_url, "wss://r");
    assert!(matches!(s.submission_status, TxStatus::Waiting));
}

#[test]
fn gun_peers_skip_blank_urls() {
    let mut c = controller();
    assert!(c.gun_peers().is_empty());
    c.s.gun_relay_url = "   ".to_string();
    assert!(c.gun_peers().is_empty());
    c.s.gun_relay_url = "wss://r".to_string();
    assert_eq!(c.gun_peers(), vec!["wss://r".to_string()]);
}

#[test]
fn authentication_on_localhost_skips_passkey() {
    let mut c = with_biometrics();
    assert_eq!(c.start_auth(true), AuthStart::Local);
    assert_eq!(c.s.auth_state, AuthState::Authenticating);
    c.finish_local_auth();
    assert_eq!(c.s.auth_state, AuthState::Authenticated);
    assert_eq!(c.s.prf_key, None);
}

#[test]
fn authentication_with_passkey() {
    let mut c = with_biometrics();
    assert_eq!(c.start_auth(false), AuthStart::Passkey);
    assert_eq!(c.s.auth_state, AuthState::Authenticating);
    c.finish_auth(Ok(passkey(true, Some("PRF"), None)));
    assert_eq!(c.s.auth_state, AuthState::Authenticated);
    assert_eq!(c.s.prf_key, Some("PRF".to_string()));
}

#[test]
fn failed_authentication_is_final() {
    let mut c = with_biometrics();
    c.start_auth(false);
    c.finish_auth(Ok(passkey(false, Some("PRF"), Some("cancelled"))));
    assert_eq!(c.s.auth_state, AuthState::Failed);
    assert_eq!(c.s.prf_key, None);
    let mut d = with_biometrics();
    d.start_auth(false);
    d.finish_auth(Err("no passkey".to_string()));
    assert_eq!(d.s.auth_state, AuthState::Failed);
}

#[test]
fn failed_sign_in_stays_failed() {
    let mut c = with_biometrics();
    c.start_auth(false);
    c.finish_auth(Err("no passkey".to_string()));
    assert_eq!(c.s.auth_state, AuthState::Failed);
    assert_eq!(c.start_auth(false), AuthStart::Refused);
    assert_eq!(c.s.auth_state, AuthState::Failed);
    assert_eq!(c.start_auth(true), AuthStart::Refused);
    assert_eq!(c.s.auth_state, AuthState::Failed);
    c.finish_auth(Ok(passkey(true, Some("PRF"), None)));
    assert_eq!(c.s.auth_state, AuthState::Failed);
    assert_eq!(c.s.prf_key, None);
    c.finish_local_auth();
    assert_eq!(c.s.auth_state, AuthState::Failed);
}

#[test]
fn biometric_switch_only_turns_on() {
    let mut c = with_biometrics();
    assert!(matches!(c.toggle_biometric(false), BiometricStep::AlreadyEnabled));
    assert!(c.s.biometric_enabled);

    let mut local = controller();
    assert!(matches!(local.toggle_biometric(true), BiometricStep::Enabled));
    assert!(local.s.biometric_enabled);

    let mut remote = controller();
    assert!(matches!(remote.toggle_biometric(false), BiometricStep::RegisterPasskey));
    assert!(!remote.s.biometric_enabled);
    match remote.finish_biometric_registration(Ok(passkey(false, None, None))) {
        RegistrationOutcome::Rejected(m) => assert_eq!(m, "Unknown error"),
        _ => panic!("expected a rejection"),
    }
    match remote.finish_biometric_registration(Ok(passkey(false, None, Some("denied")))) {
        RegistrationOutcome::Rejected(m) => assert_eq!(m, "denied"),
        _ => panic!("expected a rejection"),
    }
    match remote.finish_biometric_registration(Err("boom".to_string())) {
        RegistrationOutcome::Errored(m) => assert_eq!(m, "boom"),
        _ => panic!("expected an error"),
    }
    assert!(!remote.s.biometric_enabled);
    assert!(matches!(remote.finish_biometric_registration(Ok(passkey(true, None, None))), RegistrationOutcome::Registered));
    assert!(remote.s.biometric_enabled);
}

#[test]
fn modals_open_and_close() {
    let mut c = controller();
    c.s.biometric_save_modal_open = true;
    c.dismiss_biometric_save_modal();
    assert!(!c.s.biometric_save_modal_open);
    c.open_sea_modal();
    assert!(c.s.sea_modal_open);
    c.s.sea_modal_input = SecretString::new("pass".to_string());
    c.close_sea_modal();
    assert!(!c.s.sea_modal_open);
    assert_eq!(c.s.sea_modal_input.as_str(), "");
    c.s.sss_shares = Some(vec!["a".to_string()]);
    c.dismiss_sss_modal();
    assert!(c.s.sss_shares.is_none());
}

#[test]
fn copying_the_xdr() {
    let mut c = controller();
    assert_eq!(c.copy_xdr_to_clipboard(), None);
    assert!(!c.s.clipboard_modal_open);
    c.s.generated_xdr = "AAAA".to_string();
    assert_eq!(c.copy_xdr_to_clipboard(), Some("AAAA".to_string()));
    assert!(c.s.clipboard_modal_open);
    c.dismiss_clipboard_modal();
    assert!(!c.s.clipboard_modal_open);
}

#[test]
fn submitting_and_faucet_status() {
    let mut c = controller();
    c.s.generated_xdr = "XDR".to_string();
    assert_eq!(c.submit_transaction_action(), "XDR");
    assert!(matches!(c.s.submission_status, TxStatus::Submitting));
    c.finish_submission(TxStatus::Success("hash".to_string()));
    assert!(matches!(&c.s.submission_status, TxStatus::Success(h) if h == "hash"));

    c.s.testnet_public_key = Some("GTEST".to_string());
    assert_eq!(c.activate_test_account_for_testnet(), Some("GTEST".to_string()));
    assert!(matches!(c.s.submission_status, TxStatus::CallingFaucet));
    c.finish_faucet(Err("faucet down".to_string()));
    assert!(matches!(&c.s.submission_status, TxStatus::Error(m) if m == "faucet down"));
    c.finish_faucet(Ok("funded".to_string()));
    assert!(matches!(&c.s.submission_status, TxStatus::FaucetSuccess(m) if m == "funded"));
}

#[test]
fn switching_language() {
    let mut c = controller();
    c.set_language("de");
    assert_eq!(c.s.language, Language::German);
    c.set_language("zz");
    assert_eq!(c.s.language, Language::English);
}

#[test]
fn nickname_needs_sea_keys_and_public_key() {
    let mut c = controller();
    c.s.nickname = "alice".to_string();
    assert!(matches!(c.save_nickname_action(), GraphWrite::NeedSeaKeys));
    assert!(c.s.sea_modal_open);
    c.s.sea_key_pair = Some(pair("GUNPUB"));
    assert!(matches!(c.save_nickname_action(), GraphWrite::NoPublicKey));
    c.s.public_key = Some("GPK".to_string());
    c.s.gun_relay_url = "wss://r".to_string();
    match c.save_nickname_action() {
        GraphWrite::Write { public_key, value, peers } => {
            assert_eq!(public_key, "GPK");
            assert_eq!(value, "alice");
            assert_eq!(peers, vec!["wss://r".to_string()]);
        }
        _ => panic!("expected a write"),
    }
}

#[test]
fn relay_url_write() {
    let mut c = controller();
    c.s.sea_key_pair = Some(pair("GUNPUB"));
    c.s.public_key = Some("GPK".to_string());
    c.s.gun_relay_url = " ".to_string();
    match c.save_gun_relay_action() {
        GraphWrite::Write { value, peers, .. } => {
            assert_eq!(value, " ");
            assert!(peers.is_empty());
        }
        _ => panic!("expected a write"),
    }
}

#[test]
fn checking_the_configured_relay() {
    let mut c = controller();
    c.s.relay_status = Some(true);
    assert_eq!(c.check_relay_action(), None);
    assert_eq!(c.s.relay_status, None);
    assert!(!c.s.relay_checking);
    c.s.gun_relay_url = "wss://o'hare".to_string();
    assert_eq!(
        c.check_relay_action(),
        Some("window.__gun_bridge.checkRelay('wss://o\\'hare')".to_string())
    );
    assert!(c.s.relay_checking);
    c.finish_relay_check(Some("{\"ok\":true}".to_string()));
    assert_eq!(c.s.relay_status, Some(true));
    assert!(!c.s.relay_checking);
    c.check_relay_action();
    c.finish_relay_check(None);
    assert_eq!(c.s.relay_status, Some(false));
}

#[test]
fn discovering_relays() {
    let mut c = controller();
    c.s.discovered_relays = vec![DiscoveredRelay { url: "old".to_string(), reachable: Some(true) }];
    c.discover_relays_action();
    assert!(c.s.discovering_relays);
    assert!(c.s.discovered_relays.is_empty());
    c.on_relays_discovered(vec![
        DiscoveredRelay { url: "wss://a".to_string(), reachable: None },
        DiscoveredRelay { url: "wss://b".to_string(), reachable: None },
    ]);
    assert_eq!(
        c.discovered_relay_check(1),
        Some("window.__gun_bridge.checkRelay('wss://b', 4000)".to_string())
    );
    assert_eq!(c.discovered_relay_check(2), None);
    c.on_discovered_relay_checked(0, Some("{\"ok\":true}".to_string()));
    c.on_discovered_relay_checked(1, Some("{\"ok\":false}".to_string()));
    c.on_discovered_relay_checked(5, Some("{\"ok\":true}".to_string()));
    assert_eq!(c.s.discovered_relays[0].reachable, Some(true));
    assert_eq!(c.s.discovered_relays[1].reachable, Some(false));
    assert_eq!(c.s.discovered_relays[1].url, "wss://b");
    assert_eq!(c.s.discovered_relays.len(), 2);
    c.finish_discovery();
    assert!(!c.s.discovering_relays);
}

#[test]
fn sea_key_generation() {
    let mut c = controller();
    assert!(c.generate_sea_keys().is_none());
    c.s.sea_modal_open = true;
    c.s.sea_modal_input = SecretString::new("correct horse".to_string());
    c.s.public_key = Some("GPK".to_string());
    c.s.gun_relay_url = "wss://r".to_string();
    let req: SeaRequest = c.generate_sea_keys().unwrap();
    assert_eq!(req.passphrase.as_str(), "correct horse");
    assert_eq!(req.public_key, Some("GPK".to_string()));
    let shares = vec!["s1".to_string(), "s2".to_string()];
    let write = c.finish_sea_generation(req, Ok(pair("GUNPUB")), shares.clone()).unwrap();
    assert_eq!(write.public_key, "GPK");
    assert_eq!(write.address, "GUNPUB");
    assert_eq!(write.peers, vec!["wss://r".to_string()]);
    assert_eq!(c.s.gun_address, "GUNPUB");
    assert_eq!(c.s.sea_key_pair.as_ref().unwrap().pub_key, "GUNPUB");
    assert_eq!(c.s.sss_shares, Some(shares));
    assert!(!c.s.sea_modal_open);
    assert_eq!(c.s.sea_modal_input.as_str(), "");
}

#[test]
fn failed_sea_generation_closes_modal() {
    let mut c = controller();
    c.s.sea_modal_open = true;
    c.s.sea_modal_input = SecretString::new("pw".to_string());
    let req = c.generate_sea_keys().unwrap();
    assert!(c.finish_sea_generation(req, Err("bad".to_string()), vec![]).is_none());
    assert!(c.s.sea_key_pair.is_none());
    assert!(c.s.sss_shares.is_none());
    assert!(!c.s.sea_modal_open);
    assert_eq!(c.s.sea_modal_input.as_str(), "");
}

#[test]
fn generated_keys_go_to_their_network() {
    let mut c = controller();
    c.generate_key_for_network(NetworkEnvironment::Test, "GT".to_string(), "ST".to_string());
    assert_eq!(c.s.testnet_public_key, Some("GT".to_string()));
    assert_eq!(c.s.testnet_secret_key.as_ref().unwrap().as_str(), "ST");
    assert_eq!(c.s.public_key, Some("GT".to_string()));
    assert!(c.s.mainnet_public_key.is_none());
    c.generate_key_for_network(NetworkEnvironment::Production, "GM".to_string(), "SM".to_string());
    assert_eq!(c.s.mainnet_public_key, Some("GM".to_string()));
    assert_eq!(c.s.mainnet_secret_key.as_ref().unwrap().as_str(), "SM");
    assert_eq!(c.s.public_key, Some("GM".to_string()));
    assert_eq!(c.s.testnet_public_key, Some("GT".to_string()));
}

#[test]
fn importing_keys() {
    let mut c = controller();
    c.s.mainnet_input_value = "SBAD".to_string();
    assert_eq!(c.import_input(NetworkEnvironment::Production), "SBAD");
    c.import_key_for_network(NetworkEnvironment::Production, None);
    assert_eq!(c.s.mainnet_input_value, "SBAD");
    assert!(c.s.mainnet_public_key.is_none());
    c.s.testnet_input_value = "SGOOD".to_string();
    c.import_key_for_network(NetworkEnvironment::Test, Some("GGOOD".to_string()));
    assert_eq!(c.s.testnet_public_key, Some("GGOOD".to_string()));
    assert_eq!(c.s.testnet_secret_key.as_ref().unwrap().as_str(), "SGOOD");
    assert_eq!(c.s.testnet_input_value, "");
    assert_eq!(c.s.public_key, Some("GGOOD".to_string()));
    assert_eq!(c.s.mainnet_input_value, "SBAD");
}

#[test]
fn revealing_secrets() {
    let mut c = controller();
    assert!(!c.reveal_secret_for_network(NetworkEnvironment::Production, false));
    assert!(c.s.mainnet_show_secret);
    let mut b = with_biometrics();
    assert!(!b.reveal_secret_for_network(NetworkEnvironment::Test, true));
    assert!(b.s.testnet_show_secret);
    let mut p = with_biometrics();
    assert!(p.reveal_secret_for_network(NetworkEnvironment::Test, false));
    assert!(!p.s.testnet_show_secret);
    p.finish_reveal(NetworkEnvironment::Test, Ok(false));
    assert!(!p.s.testnet_show_secret);
    p.finish_reveal(NetworkEnvironment::Test, Err("x".to_string()));
    assert!(!p.s.testnet_show_secret);
    p.finish_reveal(NetworkEnvironment::Test, Ok(true));
    assert!(p.s.testnet_show_secret);
    assert!(!p.s.mainnet_show_secret);
}

#[test]
fn copying_secrets() {
    let mut c = controller();
    assert!(c.copy_secret_for_network(NetworkEnvironment::Production).is_none());
    assert!(!c.s.clipboard_modal_open);
    c.s.testnet_secret_key = Some(SecretString::new("STEST".to_string()));
    let copied = c.copy_secret_for_network(NetworkEnvironment::Test).unwrap();
    assert_eq!(copied.as_str(), "STEST");
    assert!(c.s.clipboard_modal_open);
}

#[test]
fn pin_code() {
    let mut c = controller();
    c.set_pin_code("1234".to_string());
    assert_eq!(c.s.pin_code, "1234");
}

#[test]
fn building_the_relay_transaction() {
    let mut c = controller();
    c.s.gun_relay_url = "wss://r".to_string();
    c.s.testnet_secret_key = Some(SecretString::new("STEST".to_string()));
    let req = c.fetch_and_generate_xdr_action();
    assert_eq!(req.secret_key.unwrap().as_str(), "STEST");
    assert_eq!(req.relay_url, "wss://r");
    assert_eq!(req.network, NetworkEnvironment::Test);
    assert!(matches!(c.s.submission_status, TxStatus::FetchingSequence));
    c.finish_xdr_generation(Err(TxStatus::Error("no account".to_string())));
    assert!(matches!(&c.s.submission_status, TxStatus::Error(m) if m == "no account"));
    assert_eq!(c.s.generated_xdr, "");
    c.finish_xdr_generation(Ok(("AAAXDR".to_string(), TxStatus::Waiting)));
    assert_eq!(c.s.generated_xdr, "AAAXDR");
    assert!(matches!(c.s.submission_status, TxStatus::Waiting));
}

#[test]
fn relays_are_added_once_and_below_the_limit() {
    let mut c = controller();
    assert!(c.add_relay_action("wss://a".to_string(), 2));
    assert!(!c.add_relay_action("wss://a".to_string(), 2));
    assert!(c.add_relay_action("wss://b".to_string(), 2));
    assert!(!c.add_relay_action("wss://c".to_string(), 2));
    assert_eq!(c.connected_relay_urls(), vec!["wss://a".to_string(), "wss://b".to_string()]);
    assert!(!c.s.connected_relays[1].checking);
    assert_eq!(c.s.connected_relays[1].reachable, None);
}

#[test]
fn removing_a_relay_keeps_the_others_in_order() {
    let mut c = controller();
    c.add_relay_action("wss://a".to_string(), 5);
    c.add_relay_action("wss://b".to_string(), 5);
    c.add_relay_action("wss://c".to_string(), 5);
    c.remove_relay_action("wss://b");
    assert_eq!(c.connected_relay_urls(), vec!["wss://a".to_string(), "wss://c".to_string()]);
    c.remove_relay_action("wss://x");
    assert_eq!(c.connected_relay_urls().len(), 2);
}

#[test]
fn faucet_without_a_testnet_key_reports_it() {
    let mut c = controller();
    assert_eq!(c.activate_test_account_for_testnet(), None);
    assert!(matches!(&c.s.submission_status, TxStatus::Error(m) if m == "No public key"));
}

#[test]
fn inputs_are_taken_by_setters() {
    let mut c = controller();
    c.set_import_input(NetworkEnvironment::Production, "SM".to_string());
    c.set_import_input(NetworkEnvironment::Test, "ST".to_string());
    assert_eq!(c.s.mainnet_input_value, "SM");
    assert_eq!(c.s.testnet_input_value, "ST");
    c.set_nickname("alice".to_string());
    assert_eq!(c.s.nickname, "alice");
    c.set_sea_modal_input(SecretString::new("phrase".to_string()));
    assert_eq!(c.s.sea_modal_input.as_str(), "phrase");
    let stored = c.set_gun_relay_url("wss://relay.example/gun".to_string());
    assert_eq!(stored, "wss://relay.example/gun");
    assert_eq!(c.s.gun_relay_url, "wss://relay.example/gun");
    let again = AppController::new(use_wallet_state(None, Some(stored)));
    assert_eq!(again.s.gun_relay_url, "wss://relay.example/gun");
}

#[test]
fn discovery_checks_each_relay_once() {
    let mut c = controller();
    c.on_relays_discovered(vec![
        DiscoveredRelay { url: "wss://a".to_string(), reachable: None },
        DiscoveredRelay { url: "wss://b".to_string(), reachable: None },
    ]);
    let mut checked = Vec::new();
    while let Some((i, script)) = c.next_discovered_check() {
        checked.push((i, script));
        c.on_discovered_relay_checked(i, if i == 0 { Some("{\"ok\":true}".to_string()) } else { None });
    }
    assert_eq!(
        checked,
        vec![
            (0, "window.__gun_bridge.checkRelay('wss://a', 4000)".to_string()),
            (1, "window.__gun_bridge.checkRelay('wss://b', 4000)".to_string()),
        ]
    );
    assert_eq!(c.s.discovered_relays[0].reachable, Some(true));
    assert_eq!(c.s.discovered_relays[1].reachable, Some(false));
}

#[test]
fn checking_connected_relays_records_each_answer() {
    let mut c = controller();
    c.add_relay_action("wss://a".to_string(), 5);
    c.add_relay_action("wss://b'x".to_string(), 5);
    let scripts = c.check_all_relays_action();
    assert_eq!(
        scripts,
        vec![
            "window.__gun_bridge.checkRelay('wss://a')".to_string(),
            "window.__gun_bridge.checkRelay('wss://b\\'x')".to_string(),
        ]
    );
    assert!(c.s.connected_relays.iter().all(|r| r.checking));
    c.on_connected_relay_checked(0, "wss://a", Some("{\"ok\":true}".to_string()));
    c.on_connected_relay_checked(1, "wss://other", Some("{\"ok\":true}".to_string()));
    assert!(!c.s.connected_relays[0].checking);
    assert_eq!(c.s.connected_relays[0].reachable, Some(true));
    assert!(c.s.connected_relays[1].checking);
    c.on_connected_relay_checked(1, "wss://b'x", None);
    assert!(!c.s.connected_relays[1].checking);
    assert_eq!(c.s.connected_relays[1].reachable, Some(false));
}
