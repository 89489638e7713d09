use vstd::prelude::*;
use crate::common::Language;
use crate::ui::i18n::{UiI18n, UiText};
use crate::ui::i18n::english::{english_str, english_text};

verus! {

/// The French text of each key; where the language gives none, the English one.
pub open spec fn french_text(key: UiText) -> Seq<char> {
    match key {
        UiText::ToastUpdateAvailable => english_text(key),
        UiText::GateTitle => english_text(key),
        UiText::RelayStatusConnected => "Connecté"@,
        UiText::RelayStatusUnreachable => "Injoignable"@,
        UiText::RelayStatusChecking => "Vérification..."@,
        UiText::RelayStatusNotConfigured => "Aucun relais configuré"@,
        UiText::BtnCheckRelay => "Vérifier"@,
        UiText::LblRelayStatus => "État du Relais"@,
        UiText::BtnFindRelays => "Trouver des Relais"@,
        UiText::LblDiscoveredRelays => "Relais Découverts"@,
        UiText::RelayDiscovering => "Recherche..."@,
        UiText::RelayNoResults => "Aucun relais trouvé sur testnet"@,
        UiText::BtnConnectRelay => english_text(key),
        UiText::BtnRemoveRelay => english_text(key),
        UiText::BtnForgetRelay => english_text(key),
        UiText::BtnStopSearch => english_text(key),
    }
}

/// The French text of `key`.
pub fn french_str(key: UiText) -> (r: &'static str)
    ensures
        r@ == french_text(key),
{
    match key {
        UiText::ToastUpdateAvailable => english_str(key),
        UiText::GateTitle => english_str(key),
        UiText::RelayStatusConnected => "Connecté",
        UiText::RelayStatusUnreachable => "Injoignable",
        UiText::RelayStatusChecking => "Vérification...",
        UiText::RelayStatusNotConfigured => "Aucun relais configuré",
        UiText::BtnCheckRelay => "Vérifier",
        UiText::LblRelayStatus => "État du Relais",
        UiText::BtnFindRelays => "Trouver des Relais",
        UiText::LblDiscoveredRelays => "Relais Découverts",
        UiText::RelayDiscovering => "Recherche...",
        UiText::RelayNoResults => "Aucun relais trouvé sur testnet",
        UiText::BtnConnectRelay => english_str(key),
        UiText::BtnRemoveRelay => english_str(key),
        UiText::BtnForgetRelay => english_str(key),
        UiText::BtnStopSearch => english_str(key),
    }
}

/// The French texts.
pub struct FrenchUi;

impl UiI18n for FrenchUi {
    open spec fn ui_language(&self) -> Language {
        Language::French
    }

    fn language(&self) -> (l: Language) {
        Language::French
    }
}

} // verus!
