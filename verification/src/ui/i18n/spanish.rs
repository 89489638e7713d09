use vstd::prelude::*;
use crate::common::Language;
use crate::ui::i18n::{UiI18n, UiText};
use crate::ui::i18n::english::{english_str, english_text};

verus! {

/// The Spanish text of each key; where the language gives none, the English one.
pub open spec fn spanish_text(key: UiText) -> Seq<char> {
    match key {
        UiText::ToastUpdateAvailable => "\u{1F680} ¡Una nueva versión de Gun Connect está disponible!"@,
        UiText::GateTitle => "Bienvenido a Gun Connect"@,
        UiText::RelayStatusConnected => "Conectado"@,
        UiText::RelayStatusUnreachable => "Inalcanzable"@,
        UiText::RelayStatusChecking => "Verificando..."@,
        UiText::RelayStatusNotConfigured => "Sin relé configurado"@,
        UiText::BtnCheckRelay => "Verificar"@,
        UiText::LblRelayStatus => "Estado del Relé"@,
        UiText::BtnFindRelays => "Buscar Relés"@,
        UiText::LblDiscoveredRelays => "Relés Descubiertos"@,
        UiText::RelayDiscovering => "Buscando..."@,
        UiText::RelayNoResults => english_text(key),
        UiText::BtnConnectRelay => "Conectar"@,
        UiText::BtnRemoveRelay => "Eliminar"@,
        UiText::BtnForgetRelay => english_text(key),
        UiText::BtnStopSearch => english_text(key),
    }
}

/// The Spanish text of `key`.
pub fn spanish_str(key: UiText) -> (r: &'static str)
    ensures
        r@ == spanish_text(key),
{
    match key {
        UiText::ToastUpdateAvailable => "\u{1F680} ¡Una nueva versión de Gun Connect está disponible!",
        UiText::GateTitle => "Bienvenido a Gun Connect",
        UiText::RelayStatusConnected => "Conectado",
        UiText::RelayStatusUnreachable => "Inalcanzable",
        UiText::RelayStatusChecking => "Verificando...",
        UiText::RelayStatusNotConfigured => "Sin relé configurado",
        UiText::BtnCheckRelay => "Verificar",
        UiText::LblRelayStatus => "Estado del Relé",
        UiText::BtnFindRelays => "Buscar Relés",
        UiText::LblDiscoveredRelays => "Relés Descubiertos",
        UiText::RelayDiscovering => "Buscando...",
        UiText::RelayNoResults => english_str(key),
        UiText::BtnConnectRelay => "Conectar",
        UiText::BtnRemoveRelay => "Eliminar",
        UiText::BtnForgetRelay => english_str(key),
        UiText::BtnStopSearch => english_str(key),
    }
}

/// The Spanish texts.
pub struct SpanishUi;

impl UiI18n for SpanishUi {
    open spec fn ui_language(&self) -> Language {
        Language::Spanish
    }

    fn language(&self) -> (l: Language) {
        Language::Spanish
    }
}

} // verus!
