use vstd::prelude::*;
use crate::common::Language;
use crate::ui::i18n::{UiI18n, UiText};
use crate::ui::i18n::english::{english_str, english_text};

verus! {

/// The German text of each key; where the language gives none, the English one.
pub open spec fn german_text(key: UiText) -> Seq<char> {
    match key {
        UiText::ToastUpdateAvailable => "\u{1F680} Eine neue Version von Gun Connect ist verfügbar!"@,
        UiText::GateTitle => "Willkommen bei Gun Connect"@,
        UiText::RelayStatusConnected => "Verbunden"@,
        UiText::RelayStatusUnreachable => "Nicht erreichbar"@,
        UiText::RelayStatusChecking => "Prüfe..."@,
        UiText::RelayStatusNotConfigured => "Kein Relay konfiguriert"@,
        UiText::BtnCheckRelay => "Prüfen"@,
        UiText::LblRelayStatus => "Relay-Status"@,
        UiText::BtnFindRelays => "Relays Finden"@,
        UiText::LblDiscoveredRelays => "Gefundene Relays"@,
        UiText::RelayDiscovering => "Suche..."@,
        UiText::RelayNoResults => english_text(key),
        UiText::BtnConnectRelay => "Verbinden"@,
        UiText::BtnRemoveRelay => "Entfernen"@,
        UiText::BtnForgetRelay => "Vergessen"@,
        UiText::BtnStopSearch => "Stopp"@,
    }
}

/// The German text of `key`.
pub fn german_str(key: UiText) -> (r: &'static str)
    ensures
        r@ == german_text(key),
{
    match key {
        UiText::ToastUpdateAvailable => "\u{1F680} Eine neue Version von Gun Connect ist verfügbar!",
        UiText::GateTitle => "Willkommen bei Gun Connect",
        UiText::RelayStatusConnected => "Verbunden",
        UiText::RelayStatusUnreachable => "Nicht erreichbar",
        UiText::RelayStatusChecking => "Prüfe...",
        UiText::RelayStatusNotConfigured => "Kein Relay konfiguriert",
        UiText::BtnCheckRelay => "Prüfen",
        UiText::LblRelayStatus => "Relay-Status",
        UiText::BtnFindRelays => "Relays Finden",
        UiText::LblDiscoveredRelays => "Gefundene Relays",
        UiText::RelayDiscovering => "Suche...",
        UiText::RelayNoResults => english_str(key),
        UiText::BtnConnectRelay => "Verbinden",
        UiText::BtnRemoveRelay => "Entfernen",
        UiText::BtnForgetRelay => "Vergessen",
        UiText::BtnStopSearch => "Stopp",
    }
}

/// The German texts.
pub struct GermanUi;

impl UiI18n for GermanUi {
    open spec fn ui_language(&self) -> Language {
        Language::German
    }

    fn language(&self) -> (l: Language) {
        Language::German
    }
}

} // verus!
