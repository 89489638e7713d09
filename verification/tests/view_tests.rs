use gun_connect::common::Language;
use gun_connect::ui::i18n::{ui_i18n, ui_str, UiI18n, UiText};
use gun_connect::ui::i18n::english::EnglishUi;
use gun_connect::ui::i18n::french::FrenchUi;
use gun_connect::ui::i18n::german::GermanUi;
use gun_connect::ui::i18n::hungarian::HungarianUi;
use gun_connect::ui::i18n::spanish::SpanishUi;
use gun_connect::ui::relay::{DiscoveredRelay, RelayEntry};
use gun_connect::ui::state::{use_wallet_state, AuthState};
use gun_connect::ui::tabs::info::render_info_tab;
use gun_connect::ui::tabs::{render_tab_bar, Tab};
use gun_connect::ui::view::{auto_load_due, auto_load_step, render_app, Screen};

#[test]
fn screens_follow_authentication() {
    let mut s = use_wallet_state(Some("true".to_string()), None);
    assert!(matches!(render_app(&s), Screen::SignIn { busy: false, button_color: "#007bff" }));
    s.auth_state = AuthState::Authenticating;
    assert!(matches!(render_app(&s), Screen::SignIn { busy: true, button_color: "#6c757d" }));
    s.auth_state = AuthState::Failed;
    assert!(matches!(render_app(&s), Screen::AuthFailed));
    s.auth_state = AuthState::Authenticated;
    s.active_tab = Tab::Settings;
    s.clipboard_modal_open = true;
    s.sss_shares = Some(vec![]);
    assert!(matches!(
        render_app(&s),
        Screen::Main { tab: Tab::Settings, clipboard_modal: true, biometric_save_modal: false, sea_modal: false, sss_modal: true }
    ));
}

#[test]
fn keys_load_once_after_sign_in() {
    assert!(auto_load_due(AuthState::Authenticated, false));
    assert!(!auto_load_due(AuthState::Authenticated, true));
    assert!(!auto_load_due(AuthState::Pending, false));
    assert!(!auto_load_due(AuthState::Failed, false));
}

#[test]
fn tab_bar_marks_the_active_tab() {
    let bar = render_tab_bar(Tab::Settings);
    assert_eq!(bar.len(), 2);
    assert_eq!(bar[0].tab, Tab::Info);
    assert!(!bar[0].active);
    assert_eq!(bar[0].color, "#999");
    assert_eq!(bar[0].font_weight, "normal");
    assert_eq!(bar[1].tab, Tab::Settings);
    assert!(bar[1].active);
    assert_eq!(bar[1].color, "#007bff");
    assert_eq!(bar[1].font_weight, "bold");
    assert!(bar[0].icon.starts_with("M13 16h-1v-4h-1"));
    let bar = render_tab_bar(Tab::Info);
    assert!(bar[0].active && !bar[1].active);
}

#[test]
fn info_tab_without_relays() {
    let s = use_wallet_state(None, None);
    let v = render_info_tab(&s, 3);
    assert!(!v.show_check_button);
    assert!(v.show_not_configured);
    assert!(v.connected.is_empty());
    assert_eq!(v.find_label, UiText::BtnFindRelays);
    assert!(!v.show_stop_button);
    assert!(!v.show_discovered);
    assert!(v.show_connect_buttons);
}

#[test]
fn info_tab_with_relays() {
    let mut s = use_wallet_state(None, None);
    s.connected_relays = vec![
        RelayEntry { url: "wss://a".to_string(), checking: true, reachable: Some(false) },
        RelayEntry { url: "wss://b".to_string(), checking: false, reachable: Some(true) },
        RelayEntry { url: "wss://c".to_string(), checking: false, reachable: Some(false) },
        RelayEntry { url: "wss://d".to_string(), checking: false, reachable: None },
    ];
    s.discovered_relays = vec![
        DiscoveredRelay { url: "wss://b".to_string(), reachable: Some(true) },
        DiscoveredRelay { url: "wss://x".to_string(), reachable: None },
        DiscoveredRelay { url: "wss://y".to_string(), reachable: Some(false) },
        DiscoveredRelay { url: "wss://z".to_string(), reachable: Some(true) },
    ];
    s.discovering_relays = true;
    let v = render_info_tab(&s, 4);
    assert!(v.show_check_button);
    assert!(!v.show_not_configured);
    assert_eq!(v.connected.len(), 4);
    assert_eq!((v.connected[0].dot, v.connected[0].color, v.connected[0].status), ("\u{1F7E1}", "#ffc107", UiText::RelayStatusChecking));
    assert_eq!((v.connected[1].dot, v.connected[1].color, v.connected[1].status), ("\u{1F7E2}", "#28a745", UiText::RelayStatusConnected));
    assert_eq!((v.connected[2].dot, v.connected[2].color, v.connected[2].status), ("\u{1F534}", "#dc3545", UiText::RelayStatusUnreachable));
    assert_eq!((v.connected[3].dot, v.connected[3].color, v.connected[3].status), ("\u{26AA}", "#999", UiText::RelayStatusChecking));
    assert_eq!(v.connected[1].url, "wss://b");
    assert_eq!(v.find_label, UiText::RelayDiscovering);
    assert!(v.show_stop_button);
    assert!(v.show_discovered);
    let urls: Vec<&str> = v.discovered.iter().map(|r| r.url.as_str()).collect();
    assert_eq!(urls, vec!["wss://x", "wss://y", "wss://z"]);
    let dots: Vec<&str> = v.discovered.iter().map(|r| r.dot).collect();
    assert_eq!(dots, vec!["\u{1F7E1}", "\u{1F534}", "\u{1F7E2}"]);
    assert!(!v.show_connect_buttons);
    assert!(render_info_tab(&s, 5).show_connect_buttons);
}

#[test]
fn texts_per_language() {
    assert_eq!(EnglishUi.relay_status_connected(), "Connected");
    assert_eq!(FrenchUi.relay_status_connected(), "Connecté");
    assert_eq!(GermanUi.relay_status_unreachable(), "Nicht erreichbar");
    assert_eq!(HungarianUi.btn_find_relays(), "Relay-ek Keresése");
    assert_eq!(SpanishUi.lbl_relay_status(), "Estado del Relé");
    assert_eq!(EnglishUi.gate_title(), "Welcome to Gun Connect");
    assert_eq!(GermanUi.toast_update_available(), "\u{1F680} Eine neue Version von Gun Connect ist verfügbar!");
    assert_eq!(FrenchUi.relay_no_results(), "Aucun relais trouvé sur testnet");
    assert_eq!(GermanUi.btn_stop_search(), "Stopp");
}

#[test]
fn missing_texts_fall_back_to_english() {
    assert_eq!(FrenchUi.btn_connect_relay(), "Connect");
    assert_eq!(FrenchUi.gate_title(), "Welcome to Gun Connect");
    assert_eq!(HungarianUi.relay_no_results(), EnglishUi.relay_no_results());
    assert_eq!(SpanishUi.btn_forget_relay(), "Forget");
}

#[test]
fn texts_by_language_value() {
    for (lang, text) in [
        (Language::English, "Check"),
        (Language::French, "Vérifier"),
        (Language::German, "Prüfen"),
        (Language::Hungarian, "Ellenőrzés"),
        (Language::Spanish, "Verificar"),
    ] {
        let ui = ui_i18n(lang);
        assert_eq!(ui.language(), lang);
        assert_eq!(ui.btn_check_relay(), text);
        assert_eq!(ui_str(lang, UiText::BtnCheckRelay), text);
    }
}

#[test]
fn info_tab_carries_the_shown_public_key() {
    let mut s = use_wallet_state(None, None);
    assert_eq!(render_info_tab(&s, 3).public_key, None);
    s.public_key = Some("GABC".to_string());
    assert_eq!(render_info_tab(&s, 3).public_key, Some("GABC".to_string()));
}

#[test]
fn auto_load_runs_once() {
    let runs = [
        AuthState::Pending,
        AuthState::Authenticating,
        AuthState::Authenticated,
        AuthState::Authenticated,
        AuthState::Authenticated,
    ];
    let mut loaded = false;
    let loads: Vec<bool> = runs.iter().map(|a| auto_load_step(*a, &mut loaded)).collect();
    assert_eq!(loads, vec![false, false, true, false, false]);
    assert!(loaded);
}

#[test]
fn clicking_a_tab_selects_it() {
    let mut c = gun_connect::ui::controller::AppController::new(use_wallet_state(None, None));
    c.s.nickname = "n".to_string();
    c.select_tab(Tab::Settings);
    assert_eq!(c.s.active_tab, Tab::Settings);
    assert_eq!(c.s.nickname, "n");
    let bar = render_tab_bar(c.s.active_tab);
    assert!(!bar[0].active && bar[1].active);
    c.select_tab(Tab::Info);
    assert_eq!(c.s.active_tab, Tab::Info);
}
