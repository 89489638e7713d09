use vstd::prelude::*;
use crate::common::Language;
use crate::secret::SecretString;
use crate::text::text_eq;
use crate::ui::relay::{DiscoveredRelay, RelayEntry};
use crate::ui::status::TxStatus;
use crate::ui::tabs::Tab;

verus! {

/// Passkey authentication state machine.
#[derive(Clone, Copy, PartialEq, Eq, Structural, Debug)]
pub enum AuthState {
    /// The sign-in screen is shown, waiting for the user to start.
    Pending,
    /// The passkey dialog is in progress.
    Authenticating,
    /// Success: the application tabs are shown.
    Authenticated,
    /// Terminal: the error screen is shown.
    Failed,
}

impl Default for AuthState {
    fn default() -> (a: AuthState)
        ensures
            a == AuthState::Pending,
    {
        AuthState::Pending
    }
}

/// A SEA key pair of the graph database; the private halves are secrets.
pub struct SeaKeyPair {
    pub pub_key: String,
    pub epub: String,
    pub priv_key: SecretString,
    pub epriv: SecretString,
}

/// Everything the interface shows and edits.
pub struct WalletState {
    pub language: Language,
    pub public_key: Option<String>,
    pub secret_key_hidden: Option<SecretString>,
    pub clipboard_modal_open: bool,
    pub active_tab: Tab,
    pub auth_state: AuthState,
    pub prf_key: Option<String>,
    /// Whether biometric (passkey) authentication is enabled.
    pub biometric_enabled: bool,
    /// Whether the "enable biometric to save" error modal is shown.
    pub biometric_save_modal_open: bool,
    /// Optional GUN relay URL, for users who run their own GUN DB node.
    pub gun_relay_url: String,
    pub connected_relays: Vec<RelayEntry>,
    pub discovered_relays: Vec<DiscoveredRelay>,
    pub discovering_relays: bool,
    pub mainnet_public_key: Option<String>,
    pub testnet_public_key: Option<String>,
    pub mainnet_secret_key: Option<SecretString>,
    pub testnet_secret_key: Option<SecretString>,
    pub mainnet_input_value: String,
    pub testnet_input_value: String,
    pub mainnet_show_secret: bool,
    pub testnet_show_secret: bool,
    /// Localhost PIN code (used instead of a passkey on localhost).
    pub pin_code: String,
    /// Result of the last check of the configured relay.
    pub relay_status: Option<bool>,
    pub relay_checking: bool,
    pub sea_modal_open: bool,
    pub sea_modal_input: SecretString,
    pub sea_key_pair: Option<SeaKeyPair>,
    pub gun_address: String,
    pub sss_shares: Option<Vec<String>>,
    pub nickname: String,
    pub generated_xdr: String,
    pub submission_status: TxStatus,
}

/// The biometric preference that a stored value means: on only for `"true"`.
pub open spec fn biometric_pref_of(stored: Option<String>) -> bool {
    match stored {
        Some(v) => v@ == "true"@,
        None => false,
    }
}

/// Reads the stored biometric preference (`"true"` means on).
pub fn biometric_enabled_default(stored: Option<String>) -> (r: bool)
    ensures
        r == biometric_pref_of(stored),
{
    match stored {
        Some(v) => text_eq(v.as_str(), "true"),
        None => false,
    }
}

/// The text stored for a biometric preference.
pub fn biometric_pref_text(enabled: bool) -> (r: &'static str)
    ensures
        r@ == (if enabled { "true"@ } else { "false"@ }),
{
    if enabled {
        "true"
    } else {
        "false"
    }
}

/// The relay URL a stored value gives: the value, or empty when none is stored.
pub fn read_relay_url(stored: Option<String>) -> (r: String)
    ensures
        stored matches Some(v) ==> r@ == v@,
        stored is None ==> r@ == Seq::<char>::empty(),
{
    match stored {
        Some(v) => v,
        None => String::new(),
    }
}

/// The state the interface starts in, from the stored biometric preference
/// and relay URL. Without biometrics the sign-in screen is skipped.
pub fn use_wallet_state(stored_biometric: Option<String>, stored_relay_url: Option<String>) -> (s:
    WalletState)
    ensures
        s.biometric_enabled == biometric_pref_of(stored_biometric),
        s.auth_state == (if s.biometric_enabled {
            AuthState::Pending
        } else {
            AuthState::Authenticated
        }),
        stored_relay_url matches Some(v) ==> s.gun_relay_url@ == v@,
        stored_relay_url is None ==> s.gun_relay_url@ == Seq::<char>::empty(),
        s.language == Language::English,
        s.active_tab == Tab::Info,
        s.public_key is None,
        s.secret_key_hidden is None,
        !s.clipboard_modal_open,
        s.prf_key is None,
        !s.biometric_save_modal_open,
        s.connected_relays@.len() == 0,
        s.discovered_relays@.len() == 0,
        !s.discovering_relays,
        s.mainnet_public_key is None,
        s.testnet_public_key is None,
        s.mainnet_secret_key is None,
        s.testnet_secret_key is None,
        s.mainnet_input_value@ == Seq::<char>::empty(),
        s.testnet_input_value@ == Seq::<char>::empty(),
        !s.mainnet_show_secret,
        !s.testnet_show_secret,
        s.pin_code@ == Seq::<char>::empty(),
        s.relay_status is None,
        !s.relay_checking,
        !s.sea_modal_open,
        s.sea_modal_input@ == Seq::<char>::empty(),
        s.sea_key_pair is None,
        s.gun_address@ == Seq::<char>::empty(),
        s.sss_shares is None,
        s.nickname@ == Seq::<char>::empty(),
        s.generated_xdr@ == Seq::<char>::empty(),
        s.submission_status is Waiting,
{
    let bio = biometric_enabled_default(stored_biometric);
    WalletState {
        language: Language::English,
        public_key: None,
        secret_key_hidden: None,
        clipboard_modal_open: false,
        active_tab: Tab::Info,
        auth_state: if bio {
            AuthState::Pending
        } else {
            AuthState::Authenticated
        },
        prf_key: None,
        biometric_enabled: bio,
        biometric_save_modal_open: false,
        gun_relay_url: read_relay_url(stored_relay_url),
        connected_relays: Vec::new(),
        discovered_relays: Vec::new(),
        discovering_relays: false,
        mainnet_public_key: None,
        testnet_public_key: None,
        mainnet_secret_key: None,
        testnet_secret_key: None,
        mainnet_input_value: String::new(),
        testnet_input_value: String::new(),
        mainnet_show_secret: false,
        testnet_show_secret: false,
        pin_code: String::new(),
        relay_status: None,
        relay_checking: false,
        sea_modal_open: false,
        sea_modal_input: SecretString::new(String::new()),
        sea_key_pair: None,
        gun_address: String::new(),
        sss_shares: None,
        nickname: String::new(),
        generated_xdr: String::new(),
        submission_status: TxStatus::Waiting,
    }
}

} // verus!
