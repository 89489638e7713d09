use vstd::prelude::*;
use crate::common::Language;

pub mod english;
pub mod french;
pub mod german;
pub mod hungarian;
pub mod spanish;

use english::{english_str, english_text, EnglishUi};
use french::{french_str, french_text, FrenchUi};
use german::{german_str, german_text, GermanUi};
use hungarian::{hungarian_str, hungarian_text, HungarianUi};
use spanish::{spanish_str, spanish_text, SpanishUi};

verus! {

/// The texts of the interface that this application defines.
#[derive(Clone, Copy, PartialEq, Eq, Structural, Debug)]
pub enum UiText {
    ToastUpdateAvailable,
    GateTitle,
    RelayStatusConnected,
    RelayStatusUnreachable,
    RelayStatusChecking,
    RelayStatusNotConfigured,
    BtnCheckRelay,
    LblRelayStatus,
    BtnFindRelays,
    LblDiscoveredRelays,
    RelayDiscovering,
    RelayNoResults,
    BtnConnectRelay,
    BtnRemoveRelay,
    BtnForgetRelay,
    BtnStopSearch,
}

/// The text of `key` in `lang`.
pub open spec fn ui_text(lang: Language, key: UiText) -> Seq<char> {
    match lang {
        Language::English => english_text(key),
        Language::French => french_text(key),
        Language::German => german_text(key),
        Language::Hungarian => hungarian_text(key),
        Language::Spanish => spanish_text(key),
    }
}

/// The text of `key` in `lang`.
pub fn ui_str(lang: Language, key: UiText) -> (r: &'static str)
    ensures
        r@ == ui_text(lang, key),
{
    match lang {
        Language::English => english_str(key),
        Language::French => french_str(key),
        Language::German => german_str(key),
        Language::Hungarian => hungarian_str(key),
        Language::Spanish => spanish_str(key),
    }
}

/// Internationalised texts of the interface, one implementation per language.
pub trait UiI18n {
    spec fn ui_language(&self) -> Language;

    fn language(&self) -> (l: Language)
        ensures
            l == self.ui_language(),
    ;

    fn toast_update_available(&self) -> (r: &'static str)
        ensures
            r@ == ui_text(self.ui_language(), UiText::ToastUpdateAvailable),
    {
        ui_str(self.language(), UiText::ToastUpdateAvailable)
    }

    fn gate_title(&self) -> (r: &'static str)
        ensures
            r@ == ui_text(self.ui_language(), UiText::GateTitle),
    {
        ui_str(self.language(), UiText::GateTitle)
    }

    fn relay_status_connected(&self) -> (r: &'static str)
        ensures
            r@ == ui_text(self.ui_language(), UiText::RelayStatusConnected),
    {
        ui_str(self.language(), UiText::RelayStatusConnected)
    }

    fn relay_status_unreachable(&self) -> (r: &'static str)
        ensures
            r@ == ui_text(self.ui_language(), UiText::RelayStatusUnreachable),
    {
        ui_str(self.language(), UiText::RelayStatusUnreachable)
    }

    fn relay_status_checking(&self) -> (r: &'static str)
        ensures
            r@ == ui_text(self.ui_language(), UiText::RelayStatusChecking),
    {
        ui_str(self.language(), UiText::RelayStatusChecking)
    }

    fn relay_status_not_configured(&self) -> (r: &'static str)
        ensures
            r@ == ui_text(self.ui_language(), UiText::RelayStatusNotConfigured),
    {
        ui_str(self.language(), UiText::RelayStatusNotConfigured)
    }

    fn btn_check_relay(&self) -> (r: &'static str)
        ensures
            r@ == ui_text(self.ui_language(), UiText::BtnCheckRelay),
    {
        ui_str(self.language(), UiText::BtnCheckRelay)
    }

    fn lbl_relay_status(&self) -> (r: &'static str)
        ensures
            r@ == ui_text(self.ui_language(), UiText::LblRelayStatus),
    {
        ui_str(self.language(), UiText::LblRelayStatus)
    }

    fn btn_find_relays(&self) -> (r: &'static str)
        ensures
            r@ == ui_text(self.ui_language(), UiText::BtnFindRelays),
    {
        ui_str(self.language(), UiText::BtnFindRelays)
    }

    fn lbl_discovered_relays(&self) -> (r: &'static str)
        ensures
            r@ == ui_text(self.ui_language(), UiText::LblDiscoveredRelays),
    {
        ui_str(self.language(), UiText::LblDiscoveredRelays)
    }

    fn relay_discovering(&self) -> (r: &'static str)
        ensures
            r@ == ui_text(self.ui_language(), UiText::RelayDiscovering),
    {
        ui_str(self.language(), UiText::RelayDiscovering)
    }

    fn relay_no_results(&self) -> (r: &'static str)
        ensures
            r@ == ui_text(self.ui_language(), UiText::RelayNoResults),
    {
        ui_str(self.language(), UiText::RelayNoResults)
    }

    fn btn_connect_relay(&self) -> (r: &'static str)
        ensures
            r@ == ui_text(self.ui_language(), UiText::BtnConnectRelay),
    {
        ui_str(self.language(), UiText::BtnConnectRelay)
    }

    fn btn_remove_relay(&self) -> (r: &'static str)
        ensures
            r@ == ui_text(self.ui_language(), UiText::BtnRemoveRelay),
    {
        ui_str(self.language(), UiText::BtnRemoveRelay)
    }

    fn btn_forget_relay(&self) -> (r: &'static str)
        ensures
            r@ == ui_text(self.ui_language(), UiText::BtnForgetRelay),
    {
        ui_str(self.language(), UiText::BtnForgetRelay)
    }

    fn btn_stop_search(&self) -> (r: &'static str)
        ensures
            r@ == ui_text(self.ui_language(), UiText::BtnStopSearch),
    {
        ui_str(self.language(), UiText::BtnStopSearch)
    }
}

/// The texts of one of the languages, chosen when the program runs.
pub enum LanguageUi {
    English(EnglishUi),
    French(FrenchUi),
    German(GermanUi),
    Hungarian(HungarianUi),
    Spanish(SpanishUi),
}

impl UiI18n for LanguageUi {
    open spec fn ui_language(&self) -> Language {
        match self {
            LanguageUi::English(_) => Language::English,
            LanguageUi::French(_) => Language::French,
            LanguageUi::German(_) => Language::German,
            LanguageUi::Hungarian(_) => Language::Hungarian,
            LanguageUi::Spanish(_) => Language::Spanish,
        }
    }

    fn language(&self) -> (l: Language) {
        match self {
            LanguageUi::English(ui) => ui.language(),
            LanguageUi::French(ui) => ui.language(),
            LanguageUi::German(ui) => ui.language(),
            LanguageUi::Hungarian(ui) => ui.language(),
            LanguageUi::Spanish(ui) => ui.language(),
        }
    }
}

/// The texts for `lang`.
pub fn ui_i18n(lang: Language) -> (r: LanguageUi)
    ensures
        r.ui_language() == lang,
{
    match lang {
        Language::English => LanguageUi::English(EnglishUi),
        Language::French => LanguageUi::French(FrenchUi),
        Language::German => LanguageUi::German(GermanUi),
        Language::Hungarian => LanguageUi::Hungarian(HungarianUi),
        Language::Spanish => LanguageUi::Spanish(SpanishUi),
    }
}

} // verus!
