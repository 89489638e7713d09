use vstd::prelude::*;
use crate::common::NetworkEnvironment;
use crate::secret::{opt_secret_text, SecretString};
use crate::text::{has_prefix, strip_prefix};
use crate::ui::actions::{legacy_store_account, network_account, store_account_for_network};
use crate::ui::controller::{clone_opt_string, AppController};
use crate::ui::passkey::{prf_from_outcome, prf_of_outcome, prf_plan, prf_plan_of, PasskeyResult, PrfFailure, PrfPlan};
use crate::ui::state::WalletState;

verus! {

/// The stores that loading reads, in the order it reads them.
#[derive(Clone, Copy, PartialEq, Eq, Structural, Debug)]
pub enum LoadSlot {
    /// The mainnet key's own store.
    Mainnet,
    /// The testnet key's own store.
    Testnet,
    /// The single store of earlier versions, migrated when its network's slot is empty.
    Legacy,
}

/// Where a load stands.
#[derive(Clone, Copy, PartialEq, Eq, Structural, Debug)]
pub enum LoadPhase {
    AwaitPrf,
    AwaitRead(LoadSlot),
    AwaitDecrypt(LoadSlot),
    AwaitPublicKey(LoadSlot, NetworkEnvironment),
    Finished,
}

/// A load of the stored keys in progress.
pub struct LoadSession {
    /// The key that decrypts stored secrets, when they are encrypted: the
    /// passkey's PRF key, or the PIN on localhost.
    pub prf: Option<String>,
    pub phase: LoadPhase,
    /// The secret whose public key is being derived.
    pub pending: Option<SecretString>,
}

/// How a load ended.
#[derive(Clone, Copy, PartialEq, Eq, Structural, Debug)]
pub enum LoadReport {
    /// All stores were read; the interface shows the loaded keys.
    Loaded,
    /// No decryption key could be had; nothing was read.
    Aborted(PrfFailure),
}

/// The outside work a load asks for next.
pub enum LoadAction {
    /// Run the passkey ceremony that yields the decryption key.
    PasskeyInit,
    /// Read the store account.
    ReadStore { account: &'static str },
    /// Decrypt stored data with the key (PRF key or PIN).
    Decrypt { data: String, prf: String },
    /// Derive the public key of a secret on a network.
    DerivePublicKey { network: NetworkEnvironment, secret: SecretString },
    /// The load is over.
    Done(LoadReport),
    /// The event did not fit the load's phase; nothing changed.
    Idle,
}

/// The result of the outside work last asked for.
pub enum LoadEvent {
    Passkey(Result<PasskeyResult, String>),
    StoreRead(Result<String, String>),
    Decrypted(Result<String, String>),
    PublicKey(Option<String>),
}

pub open spec fn slot_account(slot: LoadSlot) -> Seq<char> {
    match slot {
        LoadSlot::Mainnet => network_account(NetworkEnvironment::Production),
        LoadSlot::Testnet => network_account(NetworkEnvironment::Test),
        LoadSlot::Legacy => "default_account"@,
    }
}

pub open spec fn slot_after(slot: LoadSlot) -> Option<LoadSlot> {
    match slot {
        LoadSlot::Mainnet => Some(LoadSlot::Testnet),
        LoadSlot::Testnet => Some(LoadSlot::Legacy),
        LoadSlot::Legacy => None,
    }
}

/// The prefix that older versions put before a network's secret.
pub open spec fn network_prefix(net: NetworkEnvironment) -> Seq<char> {
    match net {
        NetworkEnvironment::Production => "mn:"@,
        NetworkEnvironment::Test => "tn:"@,
    }
}

pub open spec fn slot_network(slot: LoadSlot) -> NetworkEnvironment {
    match slot {
        LoadSlot::Testnet => NetworkEnvironment::Test,
        _ => NetworkEnvironment::Production,
    }
}

/// `t` without the prefix `p`, when `p` begins it.
pub open spec fn strip_text(t: Seq<char>, p: Seq<char>) -> Seq<char> {
    if has_prefix(t, p) {
        t.skip(p.len() as int)
    } else {
        t
    }
}

/// The network and secret of an entry of the legacy store: `tn:` marks
/// testnet, `mn:` mainnet, and an unmarked secret is a mainnet one.
pub open spec fn legacy_entry(t: Seq<char>) -> (NetworkEnvironment, Seq<char>) {
    if has_prefix(t, "tn:"@) {
        (NetworkEnvironment::Test, t.skip(3))
    } else if has_prefix(t, "mn:"@) {
        (NetworkEnvironment::Production, t.skip(3))
    } else {
        (NetworkEnvironment::Production, t)
    }
}

pub open spec fn is_read_of(act: LoadAction, account: Seq<char>) -> bool {
    act matches LoadAction::ReadStore { account: a } && a@ == account
}

pub open spec fn is_derive_of(act: LoadAction, net: NetworkEnvironment, secret: Seq<char>) -> bool {
    act matches LoadAction::DerivePublicKey { network, secret: s } && network == net && s@ == secret
}

/// `t` is `s` with the public key shown set to the mainnet key when there is
/// one, else to the testnet key when there is one, and the hidden secret
/// following it.
pub open spec fn synced(s: WalletState, t: WalletState) -> bool {
    match s.mainnet_public_key {
        Some(pk) => {
            &&& t == WalletState { public_key: Some(pk), secret_key_hidden: t.secret_key_hidden, ..s }
            &&& opt_secret_text(t.secret_key_hidden) == opt_secret_text(s.mainnet_secret_key)
        },
        None => match s.testnet_public_key {
            Some(pk) => {
                &&& t == WalletState { public_key: Some(pk), secret_key_hidden: t.secret_key_hidden, ..s }
                &&& opt_secret_text(t.secret_key_hidden) == opt_secret_text(s.testnet_secret_key)
            },
            None => t == s,
        },
    }
}

/// Moving past `slot`: read the next store, or, after the last, show the
/// loaded keys and end.
pub open spec fn proceeds(
    s: WalletState,
    sess: LoadSession,
    slot: LoadSlot,
    t: WalletState,
    sess2: LoadSession,
    act: LoadAction,
) -> bool {
    match slot_after(slot) {
        Some(next) => {
            &&& t == s
            &&& sess2 == LoadSession { prf: sess.prf, phase: LoadPhase::AwaitRead(next), pending: None }
            &&& is_read_of(act, slot_account(next))
        },
        None => {
            &&& synced(s, t)
            &&& sess2 == LoadSession { prf: sess.prf, phase: LoadPhase::Finished, pending: None }
            &&& act == LoadAction::Done(LoadReport::Loaded)
        },
    }
}

/// The network and secret that the plain text read from `slot` holds.
pub open spec fn slot_entry(slot: LoadSlot, text: Seq<char>) -> (NetworkEnvironment, Seq<char>) {
    match slot {
        LoadSlot::Legacy => legacy_entry(text),
        _ => (slot_network(slot), strip_text(text, network_prefix(slot_network(slot)))),
    }
}

/// Whether the plain text read from `slot` holds nothing to load.
pub open spec fn slot_entry_empty(slot: LoadSlot, text: Seq<char>) -> bool {
    match slot {
        LoadSlot::Legacy => text.len() == 0,
        _ => slot_entry(slot, text).1.len() == 0,
    }
}

/// Handling the plain text read from `slot`: nothing to load moves on;
/// otherwise the public key of its secret is asked for.
pub open spec fn decoded(
    s: WalletState,
    sess: LoadSession,
    slot: LoadSlot,
    text: Seq<char>,
    t: WalletState,
    sess2: LoadSession,
    act: LoadAction,
) -> bool {
    if slot_entry_empty(slot, text) {
        proceeds(s, sess, slot, t, sess2, act)
    } else {
        let (net, secret) = slot_entry(slot, text);
        &&& t == s
        &&& sess2.prf == sess.prf
        &&& sess2.phase == LoadPhase::AwaitPublicKey(slot, net)
        &&& opt_secret_text(sess2.pending) == Some(secret)
        &&& is_derive_of(act, net, secret)
    }
}

pub open spec fn with_mainnet_key(s: WalletState, secret: SecretString, pk: String) -> WalletState {
    WalletState {
        mainnet_public_key: Some(pk),
        mainnet_secret_key: Some(secret),
        public_key: Some(pk),
        ..s
    }
}

pub open spec fn with_testnet_key(s: WalletState, secret: SecretString, pk: String) -> WalletState {
    WalletState { testnet_public_key: Some(pk), testnet_secret_key: Some(secret), ..s }
}

/// The state once a loaded secret with a valid public key is taken in. A
/// mainnet key also becomes the key shown. A legacy entry fills only an
/// empty slot.
pub open spec fn applied(
    s: WalletState,
    slot: LoadSlot,
    net: NetworkEnvironment,
    secret: SecretString,
    pk: String,
) -> WalletState {
    match slot {
        LoadSlot::Mainnet => with_mainnet_key(s, secret, pk),
        LoadSlot::Testnet => with_testnet_key(s, secret, pk),
        LoadSlot::Legacy => match net {
            NetworkEnvironment::Production => if s.mainnet_public_key is None {
                with_mainnet_key(s, secret, pk)
            } else {
                s
            },
            NetworkEnvironment::Test => if s.testnet_public_key is None {
                with_testnet_key(s, secret, pk)
            } else {
                s
            },
        },
    }
}

pub open spec fn idle(
    s: WalletState,
    sess: LoadSession,
    t: WalletState,
    sess2: LoadSession,
    act: LoadAction,
) -> bool {
    t == s && sess2 == sess && act is Idle
}

/// One step of a load: from state `s` and session `sess`, the event `ev`
/// leads to state `t`, session `sess2` and the next action `act`.
pub open spec fn load_transition(
    s: WalletState,
    sess: LoadSession,
    ev: LoadEvent,
    t: WalletState,
    sess2: LoadSession,
    act: LoadAction,
) -> bool {
    match sess.phase {
        LoadPhase::AwaitPrf => match ev {
            LoadEvent::Passkey(out) => match prf_of_outcome(out) {
                Ok(k) => {
                    &&& t == WalletState { prf_key: Some(k), ..s }
                    &&& sess2 == LoadSession {
                        prf: Some(k),
                        phase: LoadPhase::AwaitRead(LoadSlot::Mainnet),
                        pending: None,
                    }
                    &&& is_read_of(act, slot_account(LoadSlot::Mainnet))
                },
                Err(f) => {
                    &&& t == s
                    &&& sess2 == LoadSession { prf: sess.prf, phase: LoadPhase::Finished, pending: None }
                    &&& act == LoadAction::Done(LoadReport::Aborted(f))
                },
            },
            _ => idle(s, sess, t, sess2, act),
        },
        LoadPhase::AwaitRead(slot) => match ev {
            LoadEvent::StoreRead(Err(_)) => proceeds(s, sess, slot, t, sess2, act),
            LoadEvent::StoreRead(Ok(data)) => match sess.prf {
                Some(k) => {
                    &&& t == s
                    &&& sess2 == LoadSession { prf: sess.prf, phase: LoadPhase::AwaitDecrypt(slot), pending: None }
                    &&& act matches LoadAction::Decrypt { data: d, prf: p } && d@ == data@ && p@ == k@
                },
                None => decoded(s, sess, slot, data@, t, sess2, act),
            },
            _ => idle(s, sess, t, sess2, act),
        },
        LoadPhase::AwaitDecrypt(slot) => match ev {
            LoadEvent::Decrypted(r) => {
                let text = match r {
                    Ok(d) => d@,
                    Err(_) => Seq::<char>::empty(),
                };
                decoded(s, sess, slot, text, t, sess2, act)
            },
            _ => idle(s, sess, t, sess2, act),
        },
        LoadPhase::AwaitPublicKey(slot, net) => match ev {
            LoadEvent::PublicKey(Some(pk)) => match sess.pending {
                Some(secret) => proceeds(applied(s, slot, net, secret, pk), sess, slot, t, sess2, act),
                None => proceeds(s, sess, slot, t, sess2, act),
            },
            LoadEvent::PublicKey(None) => proceeds(s, sess, slot, t, sess2, act),
            _ => idle(s, sess, t, sess2, act),
        },
        LoadPhase::Finished => idle(s, sess, t, sess2, act),
    }
}

/// A recorded load: `acts[0]` is the action the load began with, and each
/// event `events[i]` leads from `states[i]`, `sessions[i]` to the next state,
/// session and action.
pub open spec fn load_run(
    states: Seq<WalletState>,
    sessions: Seq<LoadSession>,
    events: Seq<LoadEvent>,
    acts: Seq<LoadAction>,
) -> bool {
    &&& states.len() == events.len() + 1
    &&& sessions.len() == events.len() + 1
    &&& acts.len() == events.len() + 1
    &&& forall|i: int|
        0 <= i < events.len() ==> load_transition(
            states[i],
            sessions[i],
            #[trigger] events[i],
            states[i + 1],
            sessions[i + 1],
            acts[i + 1],
        )
}

/// How a load begins, by the plan for its decryption key.
pub open spec fn load_started(s: WalletState, localhost: bool, sess: LoadSession, act: LoadAction) -> bool {
    match prf_plan_of(localhost, s.biometric_enabled, s.prf_key, s.pin_code) {
        PrfPlan::Unencrypted => {
            &&& sess == LoadSession { prf: None, phase: LoadPhase::AwaitRead(LoadSlot::Mainnet), pending: None }
            &&& is_read_of(act, slot_account(LoadSlot::Mainnet))
        },
        PrfPlan::Pin(k) | PrfPlan::Ready(k) => {
            &&& sess == LoadSession { prf: Some(k), phase: LoadPhase::AwaitRead(LoadSlot::Mainnet), pending: None }
            &&& is_read_of(act, slot_account(LoadSlot::Mainnet))
        },
        PrfPlan::NeedsPasskey => {
            &&& sess == LoadSession { prf: None, phase: LoadPhase::AwaitPrf, pending: None }
            &&& act is PasskeyInit
        },
    }
}

/// The store account of a slot.
fn slot_store_account(slot: LoadSlot) -> (r: &'static str)
    ensures
        r@ == slot_account(slot),
{
    match slot {
        LoadSlot::Mainnet => store_account_for_network(NetworkEnvironment::Production),
        LoadSlot::Testnet => store_account_for_network(NetworkEnvironment::Test),
        LoadSlot::Legacy => legacy_store_account(),
    }
}

/// Removes `p` from the front of `t` when it begins it.
pub fn strip_network_prefix(t: &str, net: NetworkEnvironment) -> (r: String)
    ensures
        r@ == strip_text(t@, network_prefix(net)),
{
    let p = match net {
        NetworkEnvironment::Production => "mn:",
        NetworkEnvironment::Test => "tn:",
    };
    match strip_prefix(t, p) {
        Some(rest) => rest,
        None => String::from_str(t),
    }
}

/// Splits an entry of the legacy store into its network and secret.
pub fn parse_legacy_entry(t: &str) -> (r: (NetworkEnvironment, String))
    ensures
        r.0 == legacy_entry(t@).0,
        r.1@ == legacy_entry(t@).1,
{
    proof {
        reveal_strlit("tn:");
        reveal_strlit("mn:");
    }
    match strip_prefix(t, "tn:") {
        Some(rest) => (NetworkEnvironment::Test, rest),
        None => match strip_prefix(t, "mn:") {
            Some(rest) => (NetworkEnvironment::Production, rest),
            None => (NetworkEnvironment::Production, String::from_str(t)),
        },
    }
}

impl AppController {
    /// Starts loading the stored keys (one store per network, then the legacy
    /// store), obtaining the decryption key first where one is needed.
    pub fn load_all_from_store(&self, localhost: bool) -> (r: (LoadSession, LoadAction))
        ensures
            load_started(self.s, localhost, r.0, r.1),
    {
        let plan = prf_plan(
            localhost,
            self.s.biometric_enabled,
            clone_opt_string(&self.s.prf_key),
            self.s.pin_code.clone(),
        );
        match plan {
            PrfPlan::Unencrypted => (
                LoadSession { prf: None, phase: LoadPhase::AwaitRead(LoadSlot::Mainnet), pending: None },
                LoadAction::ReadStore { account: slot_store_account(LoadSlot::Mainnet) },
            ),
            PrfPlan::Pin(k) | PrfPlan::Ready(k) => (
                LoadSession { prf: Some(k), phase: LoadPhase::AwaitRead(LoadSlot::Mainnet), pending: None },
                LoadAction::ReadStore { account: slot_store_account(LoadSlot::Mainnet) },
            ),
            PrfPlan::NeedsPasskey => (
                LoadSession { prf: None, phase: LoadPhase::AwaitPrf, pending: None },
                LoadAction::PasskeyInit,
            ),
        }
    }

    /// Shows the mainnet key when there is one, else the testnet key.
    fn load_sync(&mut self)
        ensures
            synced(old(self).s, final(self).s),
    {
        match &self.s.mainnet_public_key {
            Some(pk) => {
                let pk = pk.clone();
                let sk = match &self.s.mainnet_secret_key {
                    Some(k) => Some(k.duplicate()),
                    None => None,
                };
                self.s.public_key = Some(pk);
                self.s.secret_key_hidden = sk;
            },
            None => match &self.s.testnet_public_key {
                Some(pk) => {
                    let pk = pk.clone();
                    let sk = match &self.s.testnet_secret_key {
                        Some(k) => Some(k.duplicate()),
                        None => None,
                    };
                    self.s.public_key = Some(pk);
                    self.s.secret_key_hidden = sk;
                },
                None => {},
            },
        }
    }

    fn load_proceed(&mut self, session: &mut LoadSession, slot: LoadSlot) -> (act: LoadAction)
        requires
            old(session).pending is None,
        ensures
            proceeds(old(self).s, *old(session), slot, final(self).s, *final(session), act),
    {
        match slot {
            LoadSlot::Mainnet => {
                session.phase = LoadPhase::AwaitRead(LoadSlot::Testnet);
                LoadAction::ReadStore { account: slot_store_account(LoadSlot::Testnet) }
            },
            LoadSlot::Testnet => {
                session.phase = LoadPhase::AwaitRead(LoadSlot::Legacy);
                LoadAction::ReadStore { account: slot_store_account(LoadSlot::Legacy) }
            },
            LoadSlot::Legacy => {
                self.load_sync();
                session.phase = LoadPhase::Finished;
                LoadAction::Done(LoadReport::Loaded)
            },
        }
    }

    fn load_decoded(&mut self, session: &mut LoadSession, slot: LoadSlot, text: String) -> (act:
        LoadAction)
        requires
            old(session).pending is None,
        ensures
            decoded(old(self).s, *old(session), slot, text@, final(self).s, *final(session), act),
    {
        let (net, secret) = match slot {
            LoadSlot::Legacy => {
                if text.unicode_len() == 0 {
                    return self.load_proceed(session, slot);
                }
                parse_legacy_entry(text.as_str())
            },
            LoadSlot::Mainnet => (
                NetworkEnvironment::Production,
                strip_network_prefix(text.as_str(), NetworkEnvironment::Production),
            ),
            LoadSlot::Testnet => (
                NetworkEnvironment::Test,
                strip_network_prefix(text.as_str(), NetworkEnvironment::Test),
            ),
        };
        if slot != LoadSlot::Legacy && secret.unicode_len() == 0 {
            return self.load_proceed(session, slot);
        }
        let kept = SecretString::new(secret);
        let handed = kept.duplicate();
        session.phase = LoadPhase::AwaitPublicKey(slot, net);
        session.pending = Some(kept);
        LoadAction::DerivePublicKey { network: net, secret: handed }
    }

    fn load_apply(&mut self, slot: LoadSlot, net: NetworkEnvironment, secret: SecretString, pk: String)
        ensures
            final(self).s == applied(old(self).s, slot, net, secret, pk),
    {
        let to_mainnet = match slot {
            LoadSlot::Mainnet => true,
            LoadSlot::Testnet => false,
            LoadSlot::Legacy => match net {
                NetworkEnvironment::Production => {
                    if self.s.mainnet_public_key.is_some() {
                        return ;
                    }
                    true
                },
                NetworkEnvironment::Test => {
                    if self.s.testnet_public_key.is_some() {
                        return ;
                    }
                    false
                },
            },
        };
        if to_mainnet {
            self.s.mainnet_public_key = Some(pk.clone());
            self.s.mainnet_secret_key = Some(secret);
            self.s.public_key = Some(pk);
        } else {
            self.s.testnet_public_key = Some(pk);
            self.s.testnet_secret_key = Some(secret);
        }
    }

    /// Takes in the result of the outside work the load last asked for, and
    /// says what to do next.
    pub fn advance_load(&mut self, session: &mut LoadSession, event: LoadEvent) -> (act: LoadAction)
        ensures
            load_transition(old(self).s, *old(session), event, final(self).s, *final(session), act),
    {
        match session.phase {
            LoadPhase::AwaitPrf => match event {
                LoadEvent::Passkey(out) => match prf_from_outcome(out) {
                    Ok(k) => {
                        self.s.prf_key = Some(k.clone());
                        session.prf = Some(k);
                        session.phase = LoadPhase::AwaitRead(LoadSlot::Mainnet);
                        session.pending = None;
                        LoadAction::ReadStore { account: slot_store_account(LoadSlot::Mainnet) }
                    },
                    Err(f) => {
                        session.phase = LoadPhase::Finished;
                        session.pending = None;
                        LoadAction::Done(LoadReport::Aborted(f))
                    },
                },
                _ => LoadAction::Idle,
            },
            LoadPhase::AwaitRead(slot) => match event {
                LoadEvent::StoreRead(Err(_)) => {
                    session.pending = None;
                    self.load_proceed(session, slot)
                },
                LoadEvent::StoreRead(Ok(data)) => match &session.prf {
                    Some(k) => {
                        let prf = k.clone();
                        session.phase = LoadPhase::AwaitDecrypt(slot);
                        session.pending = None;
                        LoadAction::Decrypt { data, prf }
                    },
                    None => {
                        session.pending = None;
                        self.load_decoded(session, slot, data)
                    },
                },
                _ => LoadAction::Idle,
            },
            LoadPhase::AwaitDecrypt(slot) => match event {
                LoadEvent::Decrypted(r) => {
                    let text = match r {
                        Ok(d) => d,
                        Err(_) => String::new(),
                    };
                    session.pending = None;
                    self.load_decoded(session, slot, text)
                },
                _ => LoadAction::Idle,
            },
            LoadPhase::AwaitPublicKey(slot, net) => match event {
                LoadEvent::PublicKey(Some(pk)) => {
                    let pending = session.pending.take();
                    match pending {
                        Some(secret) => self.load_apply(slot, net, secret, pk),
                        None => {},
                    }
                    self.load_proceed(session, slot)
                },
                LoadEvent::PublicKey(None) => {
                    session.pending = None;
                    self.load_proceed(session, slot)
                },
                _ => LoadAction::Idle,
            },
            LoadPhase::Finished => LoadAction::Idle,
        }
    }
}

} // verus!
