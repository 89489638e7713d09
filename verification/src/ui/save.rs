use vstd::prelude::*;
use crate::common::NetworkEnvironment;
use crate::secret::{opt_secret_text, SecretString};
use crate::ui::actions::{network_account, store_account_for_network};
use crate::ui::controller::{clone_opt_string, AppController};
use crate::ui::passkey::{prf_from_outcome, prf_of_outcome, prf_plan, prf_plan_of, PasskeyResult, PrfFailure, PrfPlan};
use crate::ui::state::WalletState;

verus! {

/// Where a save stands.
#[derive(Clone, Copy, PartialEq, Eq, Structural, Debug)]
pub enum SavePhase {
    AwaitPrf,
    AwaitEncrypt(NetworkEnvironment),
    AwaitWrite(NetworkEnvironment),
    Finished,
}

/// A save of the defined keys in progress, one store entry per network.
pub struct SaveSession {
    /// The key that encrypts the secrets, when they are encrypted: the
    /// passkey's PRF key, or the PIN on localhost.
    pub prf: Option<String>,
    pub mainnet: Option<SecretString>,
    pub testnet: Option<SecretString>,
    pub phase: SavePhase,
}

/// How a save ended.
pub enum SaveReport {
    /// Every defined key was written.
    Saved,
    /// No encryption key could be had; nothing was written.
    Aborted(PrfFailure),
    /// Encryption or writing failed with this message; later keys were not written.
    Failed(String),
}

/// The outside work a save asks for next.
pub enum SaveAction {
    /// Run the passkey ceremony that yields the encryption key.
    PasskeyInit,
    /// Encrypt a secret with the key (PRF key or PIN).
    Encrypt { plaintext: SecretString, prf: String },
    /// Write data to the store account.
    WriteStore { account: &'static str, data: String },
    /// The save is over.
    Done(SaveReport),
    /// The event did not fit the save's phase; nothing changed.
    Idle,
}

/// The result of the outside work last asked for.
pub enum SaveEvent {
    Passkey(Result<PasskeyResult, String>),
    Encrypted(Result<String, String>),
    Written(Result<(), String>),
}

/// How a save request is answered before any outside work.
pub enum SaveStart {
    /// Outside localhost, keys are stored only under biometric protection:
    /// the modal that says so was opened.
    BiometricRequired,
    /// No key is defined.
    NothingToSave,
    /// The save begins with this action.
    Begin(SaveSession, SaveAction),
}

pub open spec fn secret_of(sess: SaveSession, net: NetworkEnvironment) -> Option<SecretString> {
    match net {
        NetworkEnvironment::Production => sess.mainnet,
        NetworkEnvironment::Test => sess.testnet,
    }
}

/// The next network with a key to save, mainnet before testnet.
pub open spec fn next_network(sess: SaveSession, after: Option<NetworkEnvironment>) -> Option<
    NetworkEnvironment,
> {
    match after {
        None => if sess.mainnet is Some {
            Some(NetworkEnvironment::Production)
        } else if sess.testnet is Some {
            Some(NetworkEnvironment::Test)
        } else {
            None
        },
        Some(NetworkEnvironment::Production) => if sess.testnet is Some {
            Some(NetworkEnvironment::Test)
        } else {
            None
        },
        Some(NetworkEnvironment::Test) => None,
    }
}

/// Going on after `after`: the next key is encrypted first when there is an
/// encryption key, else written as it is; with no key left the save ends.
pub open spec fn save_goes_on(
    sess: SaveSession,
    after: Option<NetworkEnvironment>,
    sess2: SaveSession,
    act: SaveAction,
) -> bool {
    match next_network(sess, after) {
        Some(net) => {
            let secret = secret_of(sess, net)->0@;
            match sess.prf {
                Some(k) => {
                    &&& sess2 == SaveSession { phase: SavePhase::AwaitEncrypt(net), ..sess }
                    &&& act matches SaveAction::Encrypt { plaintext, prf } && plaintext@ == secret
                        && prf@ == k@
                },
                None => {
                    &&& sess2 == SaveSession { phase: SavePhase::AwaitWrite(net), ..sess }
                    &&& act matches SaveAction::WriteStore { account, data } && account@
                        == network_account(net) && data@ == secret
                },
            }
        },
        None => {
            &&& sess2 == SaveSession { phase: SavePhase::Finished, ..sess }
            &&& act matches SaveAction::Done(SaveReport::Saved)
        },
    }
}

pub open spec fn save_idle(
    s: WalletState,
    sess: SaveSession,
    t: WalletState,
    sess2: SaveSession,
    act: SaveAction,
) -> bool {
    t == s && sess2 == sess && act is Idle
}

pub open spec fn save_ends(sess: SaveSession, sess2: SaveSession) -> bool {
    sess2 == SaveSession { phase: SavePhase::Finished, ..sess }
}

/// One step of a save: from state `s` and session `sess`, the event `ev`
/// leads to state `t`, session `sess2` and the next action `act`.
pub open spec fn save_transition(
    s: WalletState,
    sess: SaveSession,
    ev: SaveEvent,
    t: WalletState,
    sess2: SaveSession,
    act: SaveAction,
) -> bool {
    match sess.phase {
        SavePhase::AwaitPrf => match ev {
            SaveEvent::Passkey(out) => match prf_of_outcome(out) {
                Ok(k) => {
                    &&& t == WalletState { prf_key: Some(k), ..s }
                    &&& save_goes_on(SaveSession { prf: Some(k), ..sess }, None, sess2, act)
                },
                Err(f) => {
                    &&& t == s
                    &&& save_ends(sess, sess2)
                    &&& act matches SaveAction::Done(SaveReport::Aborted(g)) && g == f
                },
            },
            _ => save_idle(s, sess, t, sess2, act),
        },
        SavePhase::AwaitEncrypt(net) => match ev {
            SaveEvent::Encrypted(Ok(d)) => {
                &&& t == s
                &&& sess2 == SaveSession { phase: SavePhase::AwaitWrite(net), ..sess }
                &&& act matches SaveAction::WriteStore { account, data } && account@
                    == network_account(net) && data@ == d@
            },
            SaveEvent::Encrypted(Err(e)) => {
                &&& t == s
                &&& save_ends(sess, sess2)
                &&& act matches SaveAction::Done(SaveReport::Failed(m)) && m@ == e@
            },
            _ => save_idle(s, sess, t, sess2, act),
        },
        SavePhase::AwaitWrite(net) => match ev {
            SaveEvent::Written(Ok(())) => t == s && save_goes_on(sess, Some(net), sess2, act),
            SaveEvent::Written(Err(e)) => {
                &&& t == s
                &&& save_ends(sess, sess2)
                &&& act matches SaveAction::Done(SaveReport::Failed(m)) && m@ == e@
            },
            _ => save_idle(s, sess, t, sess2, act),
        },
        SavePhase::Finished => save_idle(s, sess, t, sess2, act),
    }
}

/// How a save request is answered: refused with the biometric modal outside
/// localhost without biometrics, nothing when no key is defined, else begun
/// with the keys of both networks and the plan for the encryption key.
pub open spec fn save_started(s: WalletState, localhost: bool, t: WalletState, r: SaveStart) -> bool {
    if !s.biometric_enabled && !localhost {
        t == WalletState { biometric_save_modal_open: true, ..s } && r is BiometricRequired
    } else if s.mainnet_secret_key is None && s.testnet_secret_key is None {
        t == s && r is NothingToSave
    } else {
        &&& t == s
        &&& r matches SaveStart::Begin(sess, act)
        &&& opt_secret_text(sess.mainnet) == opt_secret_text(s.mainnet_secret_key)
        &&& opt_secret_text(sess.testnet) == opt_secret_text(s.testnet_secret_key)
        &&& match prf_plan_of(localhost, s.biometric_enabled, s.prf_key, s.pin_code) {
            PrfPlan::Unencrypted => sess.prf is None && save_goes_on(
                SaveSession { phase: SavePhase::AwaitPrf, ..sess },
                None,
                sess,
                act,
            ),
            PrfPlan::Pin(k) | PrfPlan::Ready(k) => sess.prf == Some(k) && save_goes_on(
                SaveSession { phase: SavePhase::AwaitPrf, ..sess },
                None,
                sess,
                act,
            ),
            PrfPlan::NeedsPasskey => sess.prf is None && sess.phase == SavePhase::AwaitPrf
                && act is PasskeyInit,
        }
    }
}

fn duplicate_opt(o: &Option<SecretString>) -> (r: Option<SecretString>)
    ensures
        opt_secret_text(r) == opt_secret_text(*o),
{
    match o {
        Some(k) => Some(k.duplicate()),
        None => None,
    }
}

/// Moves the save on to the next network with a key after `after`.
fn save_next(sess: &mut SaveSession, after: Option<NetworkEnvironment>) -> (act: SaveAction)
    ensures
        save_goes_on(*old(sess), after, *final(sess), act),
{
    let next = match after {
        None => if sess.mainnet.is_some() {
            Some(NetworkEnvironment::Production)
        } else if sess.testnet.is_some() {
            Some(NetworkEnvironment::Test)
        } else {
            None
        },
        Some(NetworkEnvironment::Production) => if sess.testnet.is_some() {
            Some(NetworkEnvironment::Test)
        } else {
            None
        },
        Some(NetworkEnvironment::Test) => None,
    };
    match next {
        Some(net) => {
            let secret = match net {
                NetworkEnvironment::Production => duplicate_opt(&sess.mainnet),
                NetworkEnvironment::Test => duplicate_opt(&sess.testnet),
            };
            let secret = match secret {
                Some(k) => k,
                None => {
                    proof {
                        assert(false);
                    }
                    return SaveAction::Idle;
                },
            };
            match &sess.prf {
                Some(k) => {
                    let prf = k.clone();
                    sess.phase = SavePhase::AwaitEncrypt(net);
                    SaveAction::Encrypt { plaintext: secret, prf }
                },
                None => {
                    sess.phase = SavePhase::AwaitWrite(net);
                    SaveAction::WriteStore {
                        account: store_account_for_network(net),
                        data: String::from_str(secret.as_str()),
                    }
                },
            }
        },
        None => {
            sess.phase = SavePhase::Finished;
            SaveAction::Done(SaveReport::Saved)
        },
    }
}

impl AppController {
    /// Answers a request to save the defined keys, one store entry per network.
    pub fn save_all_to_store(&mut self, localhost: bool) -> (r: SaveStart)
        ensures
            save_started(old(self).s, localhost, final(self).s, r),
    {
        if !self.s.biometric_enabled && !localhost {
            self.s.biometric_save_modal_open = true;
            return SaveStart::BiometricRequired;
        }
        if self.s.mainnet_secret_key.is_none() && self.s.testnet_secret_key.is_none() {
            return SaveStart::NothingToSave;
        }
        let mainnet = duplicate_opt(&self.s.mainnet_secret_key);
        let testnet = duplicate_opt(&self.s.testnet_secret_key);
        let plan = prf_plan(
            localhost,
            self.s.biometric_enabled,
            clone_opt_string(&self.s.prf_key),
            self.s.pin_code.clone(),
        );
        match plan {
            PrfPlan::NeedsPasskey => {
                let sess = SaveSession { prf: None, mainnet, testnet, phase: SavePhase::AwaitPrf };
                SaveStart::Begin(sess, SaveAction::PasskeyInit)
            },
            PrfPlan::Unencrypted => {
                let mut sess = SaveSession { prf: None, mainnet, testnet, phase: SavePhase::AwaitPrf };
                let act = save_next(&mut sess, None);
                SaveStart::Begin(sess, act)
            },
            PrfPlan::Pin(k) | PrfPlan::Ready(k) => {
                let mut sess = SaveSession { prf: Some(k), mainnet, testnet, phase: SavePhase::AwaitPrf };
                let act = save_next(&mut sess, None);
                SaveStart::Begin(sess, act)
            },
        }
    }

    /// Takes in the result of the outside work the save last asked for, and
    /// says what to do next.
    pub fn advance_save(&mut self, session: &mut SaveSession, event: SaveEvent) -> (act: SaveAction)
        ensures
            save_transition(old(self).s, *old(session), event, final(self).s, *final(session), act),
    {
        match session.phase {
            SavePhase::AwaitPrf => match event {
                SaveEvent::Passkey(out) => match prf_from_outcome(out) {
                    Ok(k) => {
                        self.s.prf_key = Some(k.clone());
                        session.prf = Some(k);
                        save_next(session, None)
                    },
                    Err(f) => {
                        session.phase = SavePhase::Finished;
                        SaveAction::Done(SaveReport::Aborted(f))
                    },
                },
                _ => SaveAction::Idle,
            },
            SavePhase::AwaitEncrypt(net) => match event {
                SaveEvent::Encrypted(Ok(d)) => {
                    session.phase = SavePhase::AwaitWrite(net);
                    SaveAction::WriteStore { account: store_account_for_network(net), data: d }
                },
                SaveEvent::Encrypted(Err(e)) => {
                    session.phase = SavePhase::Finished;
                    SaveAction::Done(SaveReport::Failed(e))
                },
                _ => SaveAction::Idle,
            },
            SavePhase::AwaitWrite(net) => match event {
                SaveEvent::Written(Ok(())) => save_next(session, Some(net)),
                SaveEvent::Written(Err(e)) => {
                    session.phase = SavePhase::Finished;
                    SaveAction::Done(SaveReport::Failed(e))
                },
                _ => SaveAction::Idle,
            },
            SavePhase::Finished => SaveAction::Idle,
        }
    }
}

} // verus!
