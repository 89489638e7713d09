use vstd::prelude::*;
use crate::common::Language;
use crate::ui::i18n::{UiI18n, UiText};

verus! {

/// The English text of each key; where the language gives none, the English one.
pub open spec fn english_text(key: UiText) -> Seq<char> {
    match key {
        UiText::ToastUpdateAvailable => "\u{1F680} A new version of Gun Connect is available!"@,
        UiText::GateTitle => "Welcome to Gun Connect"@,
        UiText::RelayStatusConnected => "Connected"@,
        UiText::RelayStatusUnreachable => "Unreachable"@,
        UiText::RelayStatusChecking => "Checking..."@,
        UiText::RelayStatusNotConfigured => "No relay configured"@,
        UiText::BtnCheckRelay => "Check"@,
        UiText::LblRelayStatus => "Relay Status"@,
        UiText::BtnFindRelays => "Find Relays"@,
        UiText::LblDiscoveredRelays => "Discovered Relays"@,
        UiText::RelayDiscovering => "Searching..."@,
        UiText::RelayNoResults => "No relays found on testnet"@,
        UiText::BtnConnectRelay => "Connect"@,
        UiText::BtnRemoveRelay => "Remove"@,
        UiText::BtnForgetRelay => "Forget"@,
        UiText::BtnStopSearch => "Stop"@,
    }
}

/// The English text of `key`.
pub fn english_str(key: UiText) -> (r: &'static str)
    ensures
        r@ == english_text(key),
{
    match key {
        UiText::ToastUpdateAvailable => "\u{1F680} A new version of Gun Connect is available!",
        UiText::GateTitle => "Welcome to Gun Connect",
        UiText::RelayStatusConnected => "Connected",
        UiText::RelayStatusUnreachable => "Unreachable",
        UiText::RelayStatusChecking => "Checking...",
        UiText::RelayStatusNotConfigured => "No relay configured",
        UiText::BtnCheckRelay => "Check",
        UiText::LblRelayStatus => "Relay Status",
        UiText::BtnFindRelays => "Find Relays",
        UiText::LblDiscoveredRelays => "Discovered Relays",
        UiText::RelayDiscovering => "Searching...",
        UiText::RelayNoResults => "No relays found on testnet",
        UiText::BtnConnectRelay => "Connect",
        UiText::BtnRemoveRelay => "Remove",
        UiText::BtnForgetRelay => "Forget",
        UiText::BtnStopSearch => "Stop",
    }
}

/// The English texts.
pub struct EnglishUi;

impl UiI18n for EnglishUi {
    open spec fn ui_language(&self) -> Language {
        Language::English
    }

    fn language(&self) -> (l: Language) {
        Language::English
    }
}

} // verus!
