use vstd::prelude::*;
use crate::common::Language;
use crate::ui::i18n::{UiI18n, UiText};
use crate::ui::i18n::english::{english_str, english_text};

verus! {

/// The Hungarian text of each key; where the language gives none, the English one.
pub open spec fn hungarian_text(key: UiText) -> Seq<char> {
    match key {
        UiText::ToastUpdateAvailable => english_text(key),
        UiText::GateTitle => english_text(key),
        UiText::RelayStatusConnected => "Csatlakozva"@,
        UiText::RelayStatusUnreachable => "Nem elérhető"@,
        UiText::RelayStatusChecking => "Ellenőrzés..."@,
        UiText::RelayStatusNotConfigured => "Nincs relay beállítva"@,
        UiText::BtnCheckRelay => "Ellenőrzés"@,
        UiText::LblRelayStatus => "Relay Állapot"@,
        UiText::BtnFindRelays => "Relay-ek Keresése"@,
        UiText::LblDiscoveredRelays => "Talált Relay-ek"@,
        UiText::RelayDiscovering => "Keresés..."@,
        UiText::RelayNoResults => english_text(key),
        UiText::BtnConnectRelay => "Csatlakozás"@,
        UiText::BtnRemoveRelay => "Eltávolítás"@,
        UiText::BtnForgetRelay => english_text(key),
        UiText::BtnStopSearch => english_text(key),
    }
}

/// The Hungarian text of `key`.
pub fn hungarian_str(key: UiText) -> (r: &'static str)
    ensures
        r@ == hungarian_text(key),
{
    match key {
        UiText::ToastUpdateAvailable => english_str(key),
        UiText::GateTitle => english_str(key),
        UiText::RelayStatusConnected => "Csatlakozva",
        UiText::RelayStatusUnreachable => "Nem elérhető",
        UiText::RelayStatusChecking => "Ellenőrzés...",
        UiText::RelayStatusNotConfigured => "Nincs relay beállítva",
        UiText::BtnCheckRelay => "Ellenőrzés",
        UiText::LblRelayStatus => "Relay Állapot",
        UiText::BtnFindRelays => "Relay-ek Keresése",
        UiText::LblDiscoveredRelays => "Talált Relay-ek",
        UiText::RelayDiscovering => "Keresés...",
        UiText::RelayNoResults => english_str(key),
        UiText::BtnConnectRelay => "Csatlakozás",
        UiText::BtnRemoveRelay => "Eltávolítás",
        UiText::BtnForgetRelay => english_str(key),
        UiText::BtnStopSearch => english_str(key),
    }
}

/// The Hungarian texts.
pub struct HungarianUi;

impl UiI18n for HungarianUi {
    open spec fn ui_language(&self) -> Language {
        Language::Hungarian
    }

    fn language(&self) -> (l: Language) {
        Language::Hungarian
    }
}

} // verus!
