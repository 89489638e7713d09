use vstd::prelude::*;
use crate::common::{language_for_code, language_from_code, NetworkEnvironment};
use crate::secret::{opt_secret_text, SecretString};
use crate::text::{is_blank, is_blank_text, text_eq};
use crate::ui::actions::import_keypair;
use crate::ui::passkey::PasskeyResult;
use crate::ui::relay::{
    check_discovered_relay_script, check_relay_script, check_script, relay_reply_ok, reply_ok,
    timed_check_script, DiscoveredRelay, RelayEntry,
};
use crate::ui::state::{AuthState, SeaKeyPair, WalletState};
use crate::ui::status::TxStatus;
use crate::ui::tabs::Tab;

verus! {

/// Applies the user's actions to the interface state. Work that happens
/// outside (passkeys, storage, the ledger, the network) is named in the
/// values its methods return; its results come back as method arguments.
pub struct AppController {
    pub s: WalletState,
}

/// A copy of an optional string.
pub fn clone_opt_string(o: &Option<String>) -> (r: Option<String>)
    ensures
        r == *o,
{
    match o {
        Some(s) => Some(s.clone()),
        None => None,
    }
}

/// Whether a page host name is the local machine's: `localhost`,
/// `127.0.0.1` or `::1`.
pub open spec fn local_host(hostname: Option<String>) -> bool {
    match hostname {
        Some(h) => h@ == "localhost"@ || h@ == "127.0.0.1"@ || h@ == "::1"@,
        None => false,
    }
}

/// Whether the application is served from the local machine (development),
/// by the page's host name.
pub fn is_localhost(hostname: &Option<String>) -> (r: bool)
    ensures
        r == local_host(*hostname),
{
    match hostname {
        Some(h) => text_eq(h.as_str(), "localhost") || text_eq(h.as_str(), "127.0.0.1") || text_eq(
            h.as_str(),
            "::1",
        ),
        None => false,
    }
}

/// The GUN peers that a relay URL gives: none when it is blank, else the URL.
pub open spec fn peers_of(url: Seq<char>, peers: Seq<String>) -> bool {
    if is_blank_text(url) {
        peers.len() == 0
    } else {
        peers.len() == 1 && peers[0]@ == url
    }
}

/// The GUN peers for a relay URL.
pub fn peers_for_url(url: &String) -> (r: Vec<String>)
    ensures
        peers_of(url@, r@),
{
    if is_blank(url.as_str()) {
        Vec::new()
    } else {
        let mut v = Vec::new();
        v.push(url.clone());
        v
    }
}

/// What a started authentication needs next.
#[derive(Clone, Copy, PartialEq, Eq, Structural, Debug)]
pub enum AuthStart {
    /// The sign-in failed for good; nothing is asked.
    Refused,
    /// On localhost no passkey is asked: complete with `finish_local_auth`.
    Local,
    /// The passkey ceremony must run: complete with `finish_auth`.
    Passkey,
}

/// What toggling biometrics needs next.
pub enum BiometricStep {
    /// Biometrics are already on; the switch only turns them on.
    AlreadyEnabled,
    /// Turned on without a passkey (localhost); the preference must be stored.
    Enabled,
    /// A passkey must be registered first.
    RegisterPasskey,
}

/// How a passkey registration ended.
pub enum RegistrationOutcome {
    /// Registered: biometrics are on and the preference must be stored.
    Registered,
    /// The ceremony reported failure, with its message.
    Rejected(String),
    /// The ceremony raised an error.
    Errored(String),
}

/// What saving the nickname or the relay URL needs next.
pub enum GraphWrite {
    /// Authenticated writes need SEA keys: the modal that makes them was opened.
    NeedSeaKeys,
    /// There is no public key to write under.
    NoPublicKey,
    /// Write `value` under `public_key` through these peers.
    Write { public_key: String, value: String, peers: Vec<String> },
}

/// The inputs for building the transaction that publishes the relay URL.
pub struct XdrRequest {
    pub secret_key: Option<SecretString>,
    pub relay_url: String,
    pub network: NetworkEnvironment,
}

/// The inputs of a SEA key generation.
pub struct SeaRequest {
    pub passphrase: SecretString,
    pub public_key: Option<String>,
    pub peers: Vec<String>,
}

/// The GUN address to record for a public key once SEA keys exist.
pub struct GunAddressWrite {
    pub public_key: String,
    pub address: String,
    pub peers: Vec<String>,
    pub pair: SeaKeyPair,
}

pub open spec fn import_input_of(s: WalletState, net: NetworkEnvironment) -> String {
    match net {
        NetworkEnvironment::Production => s.mainnet_input_value,
        NetworkEnvironment::Test => s.testnet_input_value,
    }
}

pub open spec fn with_cleared_input(s: WalletState, net: NetworkEnvironment, empty: String) -> WalletState {
    match net {
        NetworkEnvironment::Production => WalletState { mainnet_input_value: empty, ..s },
        NetworkEnvironment::Test => WalletState { testnet_input_value: empty, ..s },
    }
}

pub open spec fn secret_for(s: WalletState, net: NetworkEnvironment) -> Option<SecretString> {
    match net {
        NetworkEnvironment::Production => s.mainnet_secret_key,
        NetworkEnvironment::Test => s.testnet_secret_key,
    }
}

pub open spec fn with_shown_secret(s: WalletState, net: NetworkEnvironment) -> WalletState {
    match net {
        NetworkEnvironment::Production => WalletState { mainnet_show_secret: true, ..s },
        NetworkEnvironment::Test => WalletState { testnet_show_secret: true, ..s },
    }
}

/// The state after the sign-in passkey ceremony: a successful one takes its
/// PRF key and lets the user in, any other outcome fails for good. A failed
/// sign-in stays failed.
pub open spec fn after_auth(s: WalletState, outcome: Result<PasskeyResult, String>) -> WalletState {
    if s.auth_state == AuthState::Failed {
        s
    } else {
        match outcome {
            Ok(r) => if r.success {
                WalletState { prf_key: r.prf_key, auth_state: AuthState::Authenticated, ..s }
            } else {
                WalletState { auth_state: AuthState::Failed, ..s }
            },
            Err(_) => WalletState { auth_state: AuthState::Failed, ..s },
        }
    }
}

/// The state once authentication starts: it is under way, unless a failed
/// sign-in already ended it.
pub open spec fn after_auth_start(s: WalletState) -> WalletState {
    if s.auth_state == AuthState::Failed {
        s
    } else {
        WalletState { auth_state: AuthState::Authenticating, ..s }
    }
}

/// What a started authentication needs next: nothing after a failed
/// sign-in, the local success on localhost, else the passkey ceremony.
pub open spec fn auth_start_step(s: WalletState, localhost: bool) -> AuthStart {
    if s.auth_state == AuthState::Failed {
        AuthStart::Refused
    } else if localhost {
        AuthStart::Local
    } else {
        AuthStart::Passkey
    }
}

/// The state once the localhost sign-in completes: the user is let in
/// without a passkey, the PRF key untouched; a failed sign-in stays failed.
pub open spec fn after_local_auth(s: WalletState) -> WalletState {
    if s.auth_state == AuthState::Failed {
        s
    } else {
        WalletState { auth_state: AuthState::Authenticated, ..s }
    }
}

/// Toggling biometrics: nothing when they are on; on localhost they turn
/// on at once; elsewhere a passkey must be registered first.
pub open spec fn biometric_toggled(s: WalletState, localhost: bool, t: WalletState, r: BiometricStep) -> bool {
    if s.biometric_enabled {
        t == s && r is AlreadyEnabled
    } else if localhost {
        t == (WalletState { biometric_enabled: true, ..s }) && r is Enabled
    } else {
        t == s && r is RegisterPasskey
    }
}

/// A registration turns biometrics on only when it succeeded; a failure
/// reports its message, or "Unknown error" when it gave none.
pub open spec fn registration_finished(
    s: WalletState,
    outcome: Result<PasskeyResult, String>,
    t: WalletState,
    r: RegistrationOutcome,
) -> bool {
    match outcome {
        Ok(res) => if res.success {
            t == (WalletState { biometric_enabled: true, ..s }) && r is Registered
        } else {
            &&& t == s
            &&& r matches RegistrationOutcome::Rejected(m) && m@ == match res.error {
                Some(e) => e@,
                None => "Unknown error"@,
            }
        },
        Err(e) => t == s && (r matches RegistrationOutcome::Errored(m) && m@ == e@),
    }
}

/// Copying a text opens the clipboard modal when there is something to copy.
pub open spec fn xdr_copied(s: WalletState, t: WalletState, r: Option<String>) -> bool {
    if s.generated_xdr@.len() == 0 {
        t == s && r is None
    } else {
        t == (WalletState { clipboard_modal_open: true, ..s }) && r == Some(s.generated_xdr)
    }
}

/// A graph write needs SEA keys (else their modal opens) and a public key.
pub open spec fn graph_write_planned(s: WalletState, value: String, t: WalletState, r: GraphWrite) -> bool {
    if s.sea_key_pair is None {
        t == (WalletState { sea_modal_open: true, ..s }) && r is NeedSeaKeys
    } else {
        match s.public_key {
            None => t == s && r is NoPublicKey,
            Some(pk) => {
                &&& t == s
                &&& r matches GraphWrite::Write { public_key, value: v, peers } && public_key == pk
                    && v == value && peers_of(s.gun_relay_url@, peers@)
            },
        }
    }
}

/// Checking the relay: with none configured the status clears; otherwise
/// the check starts with the script for its URL.
pub open spec fn relay_check_started(s: WalletState, t: WalletState, script: Option<String>) -> bool {
    if is_blank_text(s.gun_relay_url@) {
        t == (WalletState { relay_status: None, ..s }) && script is None
    } else {
        &&& t == (WalletState { relay_checking: true, ..s })
        &&& script matches Some(js) && js@ == check_script(s.gun_relay_url@)
    }
}

/// The relays of `rs` whose URL is not `url`, in their order.
pub open spec fn without_url(rs: Seq<RelayEntry>, url: Seq<char>) -> Seq<RelayEntry>
    decreases rs.len(),
{
    if rs.len() == 0 {
        Seq::empty()
    } else {
        let rest = without_url(rs.drop_last(), url);
        if rs.last().url@ == url {
            rest
        } else {
            rest.push(rs.last())
        }
    }
}

/// Whether some relay of `rs` has the URL `url`.
pub open spec fn has_url(rs: Seq<RelayEntry>, url: Seq<char>) -> bool {
    exists|i: int| 0 <= i < rs.len() && #[trigger] rs[i].url@ == url
}

/// Connecting to `url`: a new unchecked entry goes at the end, unless the
/// relay is already connected or the limit is reached, when nothing changes.
pub open spec fn after_add_relay(s: WalletState, url: Seq<char>, max_relays: int, added: bool, t: WalletState) -> bool {
    &&& added == (!has_url(s.connected_relays@, url) && s.connected_relays@.len() < max_relays)
    &&& added ==> {
        &&& t == (WalletState { connected_relays: t.connected_relays, ..s })
        &&& t.connected_relays@.len() == s.connected_relays@.len() + 1
        &&& t.connected_relays@.drop_last() == s.connected_relays@
        &&& t.connected_relays@.last().url@ == url
        &&& !t.connected_relays@.last().checking
        &&& t.connected_relays@.last().reachable is None
    }
    &&& !added ==> t == s
}

/// The next discovered relay to check: the first one not yet checked, with
/// its timed check script; none when every discovered relay is checked.
pub open spec fn next_check_of(s: WalletState, r: Option<(usize, String)>) -> bool {
    let rs = s.discovered_relays@;
    match r {
        Some((i, js)) => {
            &&& i < rs.len()
            &&& rs[i as int].reachable is None
            &&& forall|j: int| 0 <= j < i ==> (#[trigger] rs[j]).reachable is Some
            &&& js@ == timed_check_script(rs[i as int].url@)
        },
        None => forall|j: int| 0 <= j < rs.len() ==> (#[trigger] rs[j]).reachable is Some,
    }
}

/// Starting a check of every connected relay: each is marked as being
/// checked, and its check script is returned in the same order.
pub open spec fn connected_checks_started(s: WalletState, t: WalletState, scripts: Seq<String>) -> bool {
    &&& t == (WalletState { connected_relays: t.connected_relays, ..s })
    &&& t.connected_relays@.len() == s.connected_relays@.len()
    &&& scripts.len() == s.connected_relays@.len()
    &&& forall|i: int|
        0 <= i < s.connected_relays@.len() ==> #[trigger] t.connected_relays@[i] == (RelayEntry {
            checking: true,
            ..s.connected_relays@[i]
        }) && scripts[i]@ == check_script(s.connected_relays@[i].url@)
}

/// The answer for the connected relay at `url`, expected at index `i`: that
/// entry, if it is still there, stops checking and takes the answer; every
/// other entry, and the rest of the state, stay as they were.
pub open spec fn connected_checked(s: WalletState, i: int, url: Seq<char>, ok: bool, t: WalletState) -> bool {
    let rs = s.connected_relays@;
    if 0 <= i < rs.len() && rs[i].url@ == url {
        t == (WalletState {
            connected_relays: t.connected_relays,
            ..s
        }) && t.connected_relays@ == rs.update(i, RelayEntry { checking: false, reachable: Some(ok), ..rs[i] })
    } else {
        t == s
    }
}

/// The script that checks the `i`-th discovered relay, if there is one.
pub open spec fn discovered_check_of(s: WalletState, i: int, script: Option<String>) -> bool {
    if 0 <= i < s.discovered_relays@.len() {
        script matches Some(js) && js@ == timed_check_script(s.discovered_relays@[i].url@)
    } else {
        script is None
    }
}

/// Only the `i`-th discovered relay changes: it takes the check's answer.
pub open spec fn discovered_checked(s: WalletState, i: int, ok: bool, t: WalletState) -> bool {
    &&& t == (WalletState { discovered_relays: t.discovered_relays, ..s })
    &&& t.discovered_relays@.len() == s.discovered_relays@.len()
    &&& forall|j: int|
        0 <= j < s.discovered_relays@.len() && j != i ==> #[trigger] t.discovered_relays@[j]
            == s.discovered_relays@[j]
    &&& 0 <= i < s.discovered_relays@.len() ==> t.discovered_relays@[i] == (DiscoveredRelay {
        reachable: Some(ok),
        ..s.discovered_relays@[i]
    })
}

/// `t` is `s` with the SEA modal closed and its input wiped.
pub open spec fn sea_modal_closed(s: WalletState, t: WalletState) -> bool {
    &&& t == (WalletState { sea_modal_open: false, sea_modal_input: t.sea_modal_input, ..s })
    &&& t.sea_modal_input@ == Seq::<char>::empty()
}

/// A SEA key generation starts only with a passphrase.
pub open spec fn sea_requested(s: WalletState, r: Option<SeaRequest>) -> bool {
    if s.sea_modal_input@.len() == 0 {
        r is None
    } else {
        &&& r matches Some(req)
        &&& req.passphrase@ == s.sea_modal_input@
        &&& req.public_key == s.public_key
        &&& peers_of(s.gun_relay_url@, req.peers@)
    }
}

/// Two SEA key pairs with the same keys.
pub open spec fn same_pair(a: SeaKeyPair, b: SeaKeyPair) -> bool {
    a.pub_key == b.pub_key && a.epub == b.epub && a.priv_key@ == b.priv_key@ && a.epriv@ == b.epriv@
}

/// The end of a SEA key generation: on success the GUN address, the pair
/// and the recovery shares are kept, and the address is to be recorded
/// under the request's public key when it had one; either way the modal
/// closes and its input is wiped.
pub open spec fn sea_finished(
    s: WalletState,
    request: SeaRequest,
    outcome: Result<SeaKeyPair, String>,
    shares: Vec<String>,
    t: WalletState,
    r: Option<GunAddressWrite>,
) -> bool {
    match outcome {
        Err(_) => sea_modal_closed(s, t) && r is None,
        Ok(pair) => {
            &&& sea_modal_closed(
                WalletState {
                    gun_address: pair.pub_key,
                    sea_key_pair: t.sea_key_pair,
                    sss_shares: Some(shares),
                    ..s
                },
                t,
            )
            &&& t.sea_key_pair matches Some(kept) && same_pair(kept, pair)
            &&& match request.public_key {
                None => r is None,
                Some(pk) => {
                    &&& r matches Some(w)
                    &&& w.public_key == pk
                    &&& w.address == pair.pub_key
                    &&& w.peers == request.peers
                    &&& same_pair(w.pair, pair)
                },
            }
        },
    }
}

/// `t` is `s` with the key pair `pk`/`secret` of `net` set and shown.
pub open spec fn network_key_set(
    s: WalletState,
    net: NetworkEnvironment,
    pk: String,
    secret: Seq<char>,
    t: WalletState,
) -> bool {
    match net {
        NetworkEnvironment::Production => {
            &&& t == (WalletState {
                mainnet_public_key: Some(pk),
                mainnet_secret_key: t.mainnet_secret_key,
                public_key: Some(pk),
                ..s
            })
            &&& opt_secret_text(t.mainnet_secret_key) == Some(secret)
        },
        NetworkEnvironment::Test => {
            &&& t == (WalletState {
                testnet_public_key: Some(pk),
                testnet_secret_key: t.testnet_secret_key,
                public_key: Some(pk),
                ..s
            })
            &&& opt_secret_text(t.testnet_secret_key) == Some(secret)
        },
    }
}

/// An import with a derived public key sets the key of `net` from the typed
/// secret, shows it, and clears the field; without one nothing changes.
pub open spec fn key_imported(
    s: WalletState,
    net: NetworkEnvironment,
    derived: Option<String>,
    t: WalletState,
) -> bool {
    match derived {
        None => t == s,
        Some(pk) => {
            &&& network_key_set(
                s,
                net,
                pk,
                import_input_of(s, net)@,
                with_cleared_input(t, net, import_input_of(s, net)),
            )
            &&& import_input_of(t, net)@ == Seq::<char>::empty()
        },
    }
}

/// Copying the secret of `net` opens the clipboard modal when there is one.
pub open spec fn secret_copied(s: WalletState, net: NetworkEnvironment, t: WalletState, r: Option<SecretString>) -> bool {
    &&& opt_secret_text(r) == opt_secret_text(secret_for(s, net))
    &&& r is None ==> t == s
    &&& r is Some ==> t == (WalletState { clipboard_modal_open: true, ..s })
}

impl AppController {
    pub fn new(state: WalletState) -> (c: AppController)
        ensures
            c.s == state,
    {
        AppController { s: state }
    }

    /// The configured GUN relay peers: none when the relay URL is blank.
    pub fn gun_peers(&self) -> (r: Vec<String>)
        ensures
            peers_of(self.s.gun_relay_url@, r@),
    {
        peers_for_url(&self.s.gun_relay_url)
    }

    /// Starts authentication from the sign-in screen: it is under way at
    /// once; on localhost it then completes without a passkey, elsewhere
    /// after the passkey ceremony. A failed sign-in is final.
    pub fn start_auth(&mut self, localhost: bool) -> (r: AuthStart)
        ensures
            r == auth_start_step(old(self).s, localhost),
            final(self).s == after_auth_start(old(self).s),
    {
        if self.s.auth_state == AuthState::Failed {
            return AuthStart::Refused;
        }
        self.s.auth_state = AuthState::Authenticating;
        if localhost {
            AuthStart::Local
        } else {
            AuthStart::Passkey
        }
    }

    /// Completes the localhost sign-in.
    pub fn finish_local_auth(&mut self)
        ensures
            final(self).s == after_local_auth(old(self).s),
    {
        if self.s.auth_state != AuthState::Failed {
            self.s.auth_state = AuthState::Authenticated;
        }
    }

    /// Takes in the outcome of the sign-in passkey ceremony.
    pub fn finish_auth(&mut self, outcome: Result<PasskeyResult, String>)
        ensures
            final(self).s == after_auth(old(self).s, outcome),
    {
        if self.s.auth_state == AuthState::Failed {
            return;
        }
        match outcome {
            Ok(r) => {
                if r.success {
                    self.s.prf_key = r.prf_key;
                    self.s.auth_state = AuthState::Authenticated;
                } else {
                    self.s.auth_state = AuthState::Failed;
                }
            },
            Err(_) => {
                self.s.auth_state = AuthState::Failed;
            },
        }
    }

    /// Turns biometric identification on (the switch never turns it off).
    pub fn toggle_biometric(&mut self, localhost: bool) -> (r: BiometricStep)
        ensures
            biometric_toggled(old(self).s, localhost, final(self).s, r),
    {
        if self.s.biometric_enabled {
            return BiometricStep::AlreadyEnabled;
        }
        if localhost {
            self.s.biometric_enabled = true;
            BiometricStep::Enabled
        } else {
            BiometricStep::RegisterPasskey
        }
    }

    /// Takes in the outcome of the passkey registration that turns biometrics on.
    pub fn finish_biometric_registration(&mut self, outcome: Result<PasskeyResult, String>) -> (r:
        RegistrationOutcome)
        ensures
            registration_finished(old(self).s, outcome, final(self).s, r),
    {
        match outcome {
            Ok(res) => {
                if res.success {
                    self.s.biometric_enabled = true;
                    RegistrationOutcome::Registered
                } else {
                    let msg = match res.error {
                        Some(e) => e,
                        None => String::from_str("Unknown error"),
                    };
                    RegistrationOutcome::Rejected(msg)
                }
            },
            Err(e) => RegistrationOutcome::Errored(e),
        }
    }

    /// Closes the modal that asks for biometrics before saving.
    pub fn dismiss_biometric_save_modal(&mut self)
        ensures
            final(self).s == (WalletState { biometric_save_modal_open: false, ..old(self).s }),
    {
        self.s.biometric_save_modal_open = false;
    }

    /// Copies the generated XDR: when there is one, the clipboard modal opens
    /// and the text to copy is returned.
    pub fn copy_xdr_to_clipboard(&mut self) -> (r: Option<String>)
        ensures
            xdr_copied(old(self).s, final(self).s, r),
    {
        if self.s.generated_xdr.unicode_len() == 0 {
            None
        } else {
            self.s.clipboard_modal_open = true;
            Some(self.s.generated_xdr.clone())
        }
    }

    /// Closes the clipboard modal (the clipboard itself is cleared outside).
    pub fn dismiss_clipboard_modal(&mut self)
        ensures
            final(self).s == (WalletState { clipboard_modal_open: false, ..old(self).s }),
    {
        self.s.clipboard_modal_open = false;
    }

    /// Starts building the testnet transaction that publishes the GUN relay
    /// URL: the status becomes "fetching sequence" and the inputs are returned.
    pub fn fetch_and_generate_xdr_action(&mut self) -> (r: XdrRequest)
        ensures
            opt_secret_text(r.secret_key) == opt_secret_text(old(self).s.testnet_secret_key),
            r.relay_url == old(self).s.gun_relay_url,
            r.network == NetworkEnvironment::Test,
            final(self).s == (WalletState { submission_status: TxStatus::FetchingSequence, ..old(self).s }),
    {
        self.s.submission_status = TxStatus::FetchingSequence;
        XdrRequest {
            secret_key: match &self.s.testnet_secret_key {
                Some(k) => Some(k.duplicate()),
                None => None,
            },
            relay_url: self.s.gun_relay_url.clone(),
            network: NetworkEnvironment::Test,
        }
    }

    /// Takes in the built transaction with the status to show, or the status
    /// of the failure.
    pub fn finish_xdr_generation(&mut self, outcome: Result<(String, TxStatus), TxStatus>)
        ensures
            final(self).s == (match outcome {
                Ok((xdr, st)) => WalletState { generated_xdr: xdr, submission_status: st, ..old(self).s },
                Err(st) => WalletState { submission_status: st, ..old(self).s },
            }),
    {
        match outcome {
            Ok((xdr, st)) => {
                self.s.generated_xdr = xdr;
                self.s.submission_status = st;
            },
            Err(st) => {
                self.s.submission_status = st;
            },
        }
    }

    /// Starts submitting the generated transaction: the status becomes
    /// "submitting" and the XDR to submit is returned.
    pub fn submit_transaction_action(&mut self) -> (xdr: String)
        ensures
            xdr == old(self).s.generated_xdr,
            final(self).s == (WalletState { submission_status: TxStatus::Submitting, ..old(self).s }),
    {
        self.s.submission_status = TxStatus::Submitting;
        self.s.generated_xdr.clone()
    }

    /// Records the status that the submission (or the faucet) ended with.
    pub fn finish_submission(&mut self, status: TxStatus)
        ensures
            final(self).s == (WalletState { submission_status: status, ..old(self).s }),
    {
        self.s.submission_status = status;
    }

    /// Switches the interface language by its code (`hu`, `fr`, `de`, `es`;
    /// anything else is English).
    pub fn set_language(&mut self, code: &str)
        ensures
            final(self).s == (WalletState { language: language_for_code(code@), ..old(self).s }),
    {
        self.s.language = language_from_code(code);
    }

    /// Saves the nickname to the graph database: needs SEA keys (the modal
    /// opens otherwise) and a public key.
    pub fn save_nickname_action(&mut self) -> (r: GraphWrite)
        ensures
            graph_write_planned(old(self).s, old(self).s.nickname, final(self).s, r),
    {
        if self.s.sea_key_pair.is_none() {
            self.open_sea_modal();
            return GraphWrite::NeedSeaKeys;
        }
        match &self.s.public_key {
            None => GraphWrite::NoPublicKey,
            Some(pk) => GraphWrite::Write {
                public_key: pk.clone(),
                value: self.s.nickname.clone(),
                peers: self.gun_peers(),
            },
        }
    }

    /// Saves the GUN relay URL to the graph database: needs SEA keys (the
    /// modal opens otherwise) and a public key.
    pub fn save_gun_relay_action(&mut self) -> (r: GraphWrite)
        ensures
            graph_write_planned(old(self).s, old(self).s.gun_relay_url, final(self).s, r),
    {
        if self.s.sea_key_pair.is_none() {
            self.open_sea_modal();
            return GraphWrite::NeedSeaKeys;
        }
        match &self.s.public_key {
            None => GraphWrite::NoPublicKey,
            Some(pk) => GraphWrite::Write {
                public_key: pk.clone(),
                value: self.s.gun_relay_url.clone(),
                peers: peers_for_url(&self.s.gun_relay_url),
            },
        }
    }

    /// Checks the configured relay: with none configured the status is
    /// cleared; otherwise the check starts and its script is returned.
    pub fn check_relay_action(&mut self) -> (script: Option<String>)
        ensures
            relay_check_started(old(self).s, final(self).s, script),
    {
        if is_blank(self.s.gun_relay_url.as_str()) {
            self.s.relay_status = None;
            return None;
        }
        self.s.relay_checking = true;
        Some(check_relay_script(self.s.gun_relay_url.as_str()))
    }

    /// Takes in the bridge's answer to the relay check.
    pub fn finish_relay_check(&mut self, reply: Option<String>)
        ensures
            final(self).s == (WalletState {
                relay_status: Some(reply_ok(reply)),
                relay_checking: false,
                ..old(self).s
            }),
    {
        let ok = relay_reply_ok(&reply);
        self.s.relay_status = Some(ok);
        self.s.relay_checking = false;
    }

    /// The URLs of the connected relays, in their order.
    pub fn connected_relay_urls(&self) -> (urls: Vec<String>)
        ensures
            urls@.len() == self.s.connected_relays@.len(),
            forall|i: int| 0 <= i < urls@.len() ==> #[trigger] urls@[i]@ == self.s.connected_relays@[i].url@,
    {
        let mut urls: Vec<String> = Vec::new();
        let mut i: usize = 0;
        while i < self.s.connected_relays.len()
            invariant
                i <= self.s.connected_relays@.len(),
                urls@.len() == i,
                forall|k: int| 0 <= k < i ==> #[trigger] urls@[k]@ == self.s.connected_relays@[k].url@,
            decreases self.s.connected_relays@.len() - i,
        {
            urls.push(self.s.connected_relays[i].url.clone());
            i = i + 1;
        }
        urls
    }

    /// Connects to the relay at `url`, as an unchecked entry at the end of
    /// the list; returns whether it was added.
    pub fn add_relay_action(&mut self, url: String, max_relays: usize) -> (added: bool)
        ensures
            after_add_relay(old(self).s, url@, max_relays as int, added, final(self).s),
    {
        let n = self.s.connected_relays.len();
        if n >= max_relays {
            return false;
        }
        let mut i: usize = 0;
        while i < n
            invariant
                n == self.s.connected_relays@.len(),
                i <= n,
                forall|k: int| 0 <= k < i ==> #[trigger] self.s.connected_relays@[k].url@ != url@,
            decreases n - i,
        {
            if text_eq(self.s.connected_relays[i].url.as_str(), url.as_str()) {
                return false;
            }
            i = i + 1;
        }
        let ghost before = self.s.connected_relays@;
        self.s.connected_relays.push(RelayEntry { url, checking: false, reachable: None });
        assert(self.s.connected_relays@.drop_last() =~= before);
        true
    }

    /// Disconnects the relays at `url`; the others keep their order.
    pub fn remove_relay_action(&mut self, url: &str)
        ensures
            final(self).s == (WalletState { connected_relays: final(self).s.connected_relays, ..old(self).s }),
            final(self).s.connected_relays@ == without_url(old(self).s.connected_relays@, url@),
    {
        let ghost orig = self.s.connected_relays@;
        let n = self.s.connected_relays.len();
        let mut i: usize = 0;
        let mut j: usize = 0;
        while j < n
            invariant
                n == orig.len(),
                j <= n,
                i == without_url(orig.subrange(0, j as int), url@).len(),
                self.s.connected_relays@ == without_url(orig.subrange(0, j as int), url@) + orig.subrange(j as int, n as int),
                self.s == (WalletState { connected_relays: self.s.connected_relays, ..old(self).s }),
            decreases n - j,
        {
            let ghost pre = orig.subrange(0, j as int);
            let ghost next = orig.subrange(0, j + 1);
            assert(next.drop_last() =~= pre);
            let m = self.s.connected_relays.len();
            assert(i < m);
            assert(self.s.connected_relays@[i as int] == orig[j as int]);
            if text_eq(self.s.connected_relays[i].url.as_str(), url) {
                self.s.connected_relays.remove(i);
                assert(self.s.connected_relays@ =~= without_url(next, url@) + orig.subrange(j + 1, n as int));
            } else {
                assert(without_url(next, url@) == without_url(pre, url@).push(orig[j as int]));
                assert(self.s.connected_relays@ =~= without_url(next, url@) + orig.subrange(j + 1, n as int));
                i = i + 1;
            }
            j = j + 1;
        }
        assert(orig.subrange(0, n as int) =~= orig);
        assert(self.s.connected_relays@ =~= without_url(orig, url@));
    }

    /// Starts discovering relays: the list empties while the search runs.
    pub fn discover_relays_action(&mut self)
        ensures
            final(self).s == (WalletState {
                discovering_relays: true,
                discovered_relays: final(self).s.discovered_relays,
                ..old(self).s
            }),
            final(self).s.discovered_relays@.len() == 0,
    {
        self.s.discovering_relays = true;
        self.s.discovered_relays = Vec::new();
    }

    /// Shows the relays that discovery found, before their checks.
    pub fn on_relays_discovered(&mut self, relays: Vec<DiscoveredRelay>)
        ensures
            final(self).s == (WalletState { discovered_relays: relays, ..old(self).s }),
    {
        self.s.discovered_relays = relays;
    }

    /// The script that checks the `i`-th discovered relay, if there is one.
    pub fn discovered_relay_check(&self, i: usize) -> (script: Option<String>)
        ensures
            discovered_check_of(self.s, i as int, script),
    {
        if i < self.s.discovered_relays.len() {
            Some(check_discovered_relay_script(self.s.discovered_relays[i].url.as_str()))
        } else {
            None
        }
    }

    /// Records the answer to the check of the `i`-th discovered relay; the
    /// other relays stay as they are.
    pub fn on_discovered_relay_checked(&mut self, i: usize, reply: Option<String>)
        ensures
            discovered_checked(old(self).s, i as int, reply_ok(reply), final(self).s),
    {
        let ok = relay_reply_ok(&reply);
        if i < self.s.discovered_relays.len() {
            let mut entry = self.s.discovered_relays.remove(i);
            entry.reachable = Some(ok);
            self.s.discovered_relays.insert(i, entry);
        }
    }

    /// The next discovered relay to check, if any is left unchecked.
    pub fn next_discovered_check(&self) -> (r: Option<(usize, String)>)
        ensures
            next_check_of(self.s, r),
    {
        let n = self.s.discovered_relays.len();
        let mut i: usize = 0;
        while i < n
            invariant
                n == self.s.discovered_relays@.len(),
                i <= n,
                forall|j: int| 0 <= j < i ==> (#[trigger] self.s.discovered_relays@[j]).reachable is Some,
            decreases n - i,
        {
            if self.s.discovered_relays[i].reachable.is_none() {
                return Some((i, check_discovered_relay_script(self.s.discovered_relays[i].url.as_str())));
            }
            i = i + 1;
        }
        None
    }

    /// Starts checking every connected relay: each is marked as being
    /// checked, and the scripts that check them are returned in order.
    pub fn check_all_relays_action(&mut self) -> (scripts: Vec<String>)
        ensures
            connected_checks_started(old(self).s, final(self).s, scripts@),
    {
        let ghost s0 = self.s;
        let n = self.s.connected_relays.len();
        let mut scripts: Vec<String> = Vec::new();
        let mut i: usize = 0;
        while i < n
            invariant
                n == s0.connected_relays@.len(),
                i <= n,
                self.s == (WalletState { connected_relays: self.s.connected_relays, ..s0 }),
                self.s.connected_relays@.len() == n,
                scripts@.len() == i,
                forall|k: int|
                    0 <= k < i ==> #[trigger] self.s.connected_relays@[k] == (RelayEntry {
                        checking: true,
                        ..s0.connected_relays@[k]
                    }) && scripts@[k]@ == check_script(s0.connected_relays@[k].url@),
                forall|k: int| i <= k < n ==> #[trigger] self.s.connected_relays@[k] == s0.connected_relays@[k],
            decreases n - i,
        {
            scripts.push(check_relay_script(self.s.connected_relays[i].url.as_str()));
            let mut entry = self.s.connected_relays.remove(i);
            entry.checking = true;
            self.s.connected_relays.insert(i, entry);
            i = i + 1;
        }
        scripts
    }

    /// Takes in the answer to the check of the connected relay at `url`,
    /// expected at index `i`.
    pub fn on_connected_relay_checked(&mut self, i: usize, url: &str, reply: Option<String>)
        ensures
            connected_checked(old(self).s, i as int, url@, reply_ok(reply), final(self).s),
    {
        let ok = relay_reply_ok(&reply);
        if i < self.s.connected_relays.len() && text_eq(self.s.connected_relays[i].url.as_str(), url) {
            let ghost rs = self.s.connected_relays@;
            let mut entry = self.s.connected_relays.remove(i);
            entry.checking = false;
            entry.reachable = Some(ok);
            self.s.connected_relays.insert(i, entry);
            assert(self.s.connected_relays@ =~= rs.update(
                i as int,
                RelayEntry { checking: false, reachable: Some(ok), ..rs[i as int] },
            ));
        }
    }

    /// Ends the discovery.
    pub fn finish_discovery(&mut self)
        ensures
            final(self).s == (WalletState { discovering_relays: false, ..old(self).s }),
    {
        self.s.discovering_relays = false;
    }

    /// Opens the SEA key generation modal.
    pub fn open_sea_modal(&mut self)
        ensures
            final(self).s == (WalletState { sea_modal_open: true, ..old(self).s }),
    {
        self.s.sea_modal_open = true;
    }

    /// Closes the SEA key generation modal and wipes its input.
    pub fn close_sea_modal(&mut self)
        ensures
            sea_modal_closed(old(self).s, final(self).s),
    {
        self.s.sea_modal_open = false;
        self.s.sea_modal_input = SecretString::new(String::new());
    }

    /// Starts generating SEA keys from the passphrase typed in the modal;
    /// nothing happens while it is empty.
    pub fn generate_sea_keys(&self) -> (r: Option<SeaRequest>)
        ensures
            sea_requested(self.s, r),
    {
        let passphrase = self.s.sea_modal_input.duplicate();
        if passphrase.as_str().unicode_len() == 0 {
            return None;
        }
        Some(
            SeaRequest {
                passphrase,
                public_key: clone_opt_string(&self.s.public_key),
                peers: self.gun_peers(),
            },
        )
    }

    /// Takes in the generated SEA key pair (with the passphrase's recovery
    /// shares) or the failure. On success the GUN address and the pair are
    /// kept, the shares shown, and, when the request had a public key, the
    /// address write is returned. Either way the input is wiped and the
    /// modal closes.
    pub fn finish_sea_generation(
        &mut self,
        request: SeaRequest,
        outcome: Result<SeaKeyPair, String>,
        shares: Vec<String>,
    ) -> (r: Option<GunAddressWrite>)
        ensures
            sea_finished(old(self).s, request, outcome, shares, final(self).s, r),
    {
        let r = match outcome {
            Ok(pair) => {
                self.s.gun_address = pair.pub_key.clone();
                let write = match request.public_key {
                    Some(pk) => Some(
                        GunAddressWrite {
                            public_key: pk,
                            address: pair.pub_key.clone(),
                            peers: request.peers,
                            pair: SeaKeyPair {
                                pub_key: pair.pub_key.clone(),
                                epub: pair.epub.clone(),
                                priv_key: pair.priv_key.duplicate(),
                                epriv: pair.epriv.duplicate(),
                            },
                        },
                    ),
                    None => None,
                };
                self.s.sea_key_pair = Some(pair);
                self.s.sss_shares = Some(shares);
                write
            },
            Err(_) => None,
        };
        self.s.sea_modal_input = SecretString::new(String::new());
        self.s.sea_modal_open = false;
        r
    }

    /// Closes the recovery-shares modal.
    pub fn dismiss_sss_modal(&mut self)
        ensures
            final(self).s == (WalletState { sss_shares: None, ..old(self).s }),
    {
        self.s.sss_shares = None;
    }

    /// Takes in a keypair generated for `net`: it becomes that network's key
    /// and the key shown.
    pub fn generate_key_for_network(&mut self, net: NetworkEnvironment, pk: String, sk: String)
        ensures
            network_key_set(old(self).s, net, pk, sk@, final(self).s),
    {
        let secret = SecretString::new(sk);
        match net {
            NetworkEnvironment::Production => {
                self.s.mainnet_public_key = Some(pk.clone());
                self.s.mainnet_secret_key = Some(secret);
            },
            NetworkEnvironment::Test => {
                self.s.testnet_public_key = Some(pk.clone());
                self.s.testnet_secret_key = Some(secret);
            },
        }
        self.s.public_key = Some(pk);
    }

    /// The secret typed into the import field of `net`.
    pub fn import_input(&self, net: NetworkEnvironment) -> (r: String)
        ensures
            r == import_input_of(self.s, net),
    {
        match net {
            NetworkEnvironment::Production => self.s.mainnet_input_value.clone(),
            NetworkEnvironment::Test => self.s.testnet_input_value.clone(),
        }
    }

    /// Imports the secret typed for `net`, given the public key derived from
    /// it (none when it is not a valid secret): a valid one becomes that
    /// network's key and the key shown, and its field is cleared.
    pub fn import_key_for_network(&mut self, net: NetworkEnvironment, derived_public_key: Option<String>)
        ensures
            key_imported(old(self).s, net, derived_public_key, final(self).s),
    {
        let raw_input = self.import_input(net);
        if let Some((pub_key_str, secret)) = import_keypair(raw_input, derived_public_key) {
            let secret = SecretString::new(secret);
            match net {
                NetworkEnvironment::Production => {
                    self.s.mainnet_public_key = Some(pub_key_str.clone());
                    self.s.mainnet_secret_key = Some(secret);
                    self.s.mainnet_input_value = String::new();
                },
                NetworkEnvironment::Test => {
                    self.s.testnet_public_key = Some(pub_key_str.clone());
                    self.s.testnet_secret_key = Some(secret);
                    self.s.testnet_input_value = String::new();
                },
            }
            self.s.public_key = Some(pub_key_str);
        }
    }

    /// Reveals the secret of `net`: at once on localhost or without
    /// biometrics; otherwise the result says a passkey check must pass first.
    pub fn reveal_secret_for_network(&mut self, net: NetworkEnvironment, localhost: bool) -> (needs_passkey: bool)
        ensures
            needs_passkey == (!localhost && old(self).s.biometric_enabled),
            needs_passkey ==> final(self).s == old(self).s,
            !needs_passkey ==> final(self).s == with_shown_secret(old(self).s, net),
    {
        if localhost || !self.s.biometric_enabled {
            self.show_secret(net);
            false
        } else {
            true
        }
    }

    fn show_secret(&mut self, net: NetworkEnvironment)
        ensures
            final(self).s == with_shown_secret(old(self).s, net),
    {
        match net {
            NetworkEnvironment::Production => self.s.mainnet_show_secret = true,
            NetworkEnvironment::Test => self.s.testnet_show_secret = true,
        }
    }

    /// Takes in the passkey check for revealing the secret of `net`: only a
    /// passed check reveals it.
    pub fn finish_reveal(&mut self, net: NetworkEnvironment, verified: Result<bool, String>)
        ensures
            final(self).s == (if verified == Ok::<bool, String>(true) {
                with_shown_secret(old(self).s, net)
            } else {
                old(self).s
            }),
    {
        match verified {
            Ok(true) => self.show_secret(net),
            _ => {},
        }
    }

    /// Copies the secret of `net`: when there is one, the clipboard modal
    /// opens and the secret to copy is returned.
    pub fn copy_secret_for_network(&mut self, net: NetworkEnvironment) -> (r: Option<SecretString>)
        ensures
            secret_copied(old(self).s, net, final(self).s, r),
    {
        let secret = match net {
            NetworkEnvironment::Production => match &self.s.mainnet_secret_key {
                Some(k) => Some(k.duplicate()),
                None => None,
            },
            NetworkEnvironment::Test => match &self.s.testnet_secret_key {
                Some(k) => Some(k.duplicate()),
                None => None,
            },
        };
        if secret.is_some() {
            self.s.clipboard_modal_open = true;
        }
        secret
    }

    /// Asks the testnet faucet to fund the testnet key: the status becomes
    /// "calling faucet" and the key to fund is returned. Without a testnet
    /// key nothing is asked and the status reports the missing key.
    pub fn activate_test_account_for_testnet(&mut self) -> (pubkey: Option<String>)
        ensures
            pubkey == old(self).s.testnet_public_key,
            old(self).s.testnet_public_key is Some ==> final(self).s == (WalletState {
                submission_status: TxStatus::CallingFaucet,
                ..old(self).s
            }),
            old(self).s.testnet_public_key is None ==> final(self).s == (WalletState {
                submission_status: final(self).s.submission_status,
                ..old(self).s
            }) && (final(self).s.submission_status matches TxStatus::Error(e) && e@ == "No public key"@),
    {
        match &self.s.testnet_public_key {
            Some(pk) => {
                self.s.submission_status = TxStatus::CallingFaucet;
                Some(pk.clone())
            },
            None => {
                proof {
                    reveal_strlit("No public key");
                }
                self.s.submission_status = TxStatus::Error(String::from_str("No public key"));
                None
            },
        }
    }

    /// Switches to `tab`; nothing else changes.
    pub fn select_tab(&mut self, tab: Tab)
        ensures
            final(self).s == (WalletState { active_tab: tab, ..old(self).s }),
    {
        self.s.active_tab = tab;
    }

    /// Takes the passphrase typed in the SEA modal.
    pub fn set_sea_modal_input(&mut self, passphrase: SecretString)
        ensures
            final(self).s == (WalletState { sea_modal_input: passphrase, ..old(self).s }),
    {
        self.s.sea_modal_input = passphrase;
    }

    /// Takes the secret typed in a network's import field.
    pub fn set_import_input(&mut self, net: NetworkEnvironment, value: String)
        ensures
            net == NetworkEnvironment::Production ==> final(self).s == (WalletState {
                mainnet_input_value: value,
                ..old(self).s
            }),
            net == NetworkEnvironment::Test ==> final(self).s == (WalletState {
                testnet_input_value: value,
                ..old(self).s
            }),
    {
        match net {
            NetworkEnvironment::Production => self.s.mainnet_input_value = value,
            NetworkEnvironment::Test => self.s.testnet_input_value = value,
        }
    }

    /// Takes the relay URL typed in the settings, and returns the text to
    /// keep in the browser's storage, from which `use_wallet_state` reads it
    /// back at the next start.
    pub fn set_gun_relay_url(&mut self, url: String) -> (stored: String)
        ensures
            final(self).s == (WalletState { gun_relay_url: url, ..old(self).s }),
            stored@ == url@,
    {
        let stored = url.clone();
        self.s.gun_relay_url = url;
        stored
    }

    /// Takes the nickname typed in the settings.
    pub fn set_nickname(&mut self, nickname: String)
        ensures
            final(self).s == (WalletState { nickname: nickname, ..old(self).s }),
    {
        self.s.nickname = nickname;
    }

    /// Takes in the faucet's answer: its message on success, its error
    /// otherwise, becomes the status.
    pub fn finish_faucet(&mut self, answer: Result<String, String>)
        ensures
            final(self).s == (WalletState {
                submission_status: match answer {
                    Ok(m) => TxStatus::FaucetSuccess(m),
                    Err(e) => TxStatus::Error(e),
                },
                ..old(self).s
            }),
    {
        self.s.submission_status = match answer {
            Ok(m) => TxStatus::FaucetSuccess(m),
            Err(e) => TxStatus::Error(e),
        };
    }

    /// Sets the PIN code (localhost only).
    pub fn set_pin_code(&mut self, pin: String)
        ensures
            final(self).s == (WalletState { pin_code: pin, ..old(self).s }),
    {
        self.s.pin_code = pin;
    }
}

} // verus!
