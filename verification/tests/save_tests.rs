use std::collections::HashMap;

use gun_connect::secret::SecretString;
use gun_connect::ui::controller::AppController;
use gun_connect::ui::passkey::{PasskeyResult, PrfFailure};
use gun_connect::ui::save::{SaveAction, SaveEvent, SaveReport, SaveStart};
use gun_connect::ui::state::use_wallet_state;

struct Outside {
    written: HashMap<String, String>,
    order: Vec<String>,
    passkey: Option<PasskeyResult>,
    fail_write: Option<String>,
    encryptions: usize,
}

fn outside() -> Outside {
    Outside { written: HashMap::new(), order: vec![], passkey: None, fail_write: None, encryptions: 0 }
}

fn run(c: &mut AppController, localhost: bool, o: &mut Outside) -> Option<SaveReport> {
    let (mut session, mut action) = match c.save_all_to_store(localhost) {
        SaveStart::Begin(session, action) => (session, action),
        _ => return None,
    };
    loop {
        let event = match action {
            SaveAction::PasskeyInit => SaveEvent::Passkey(o.passkey.take().ok_or("no passkey".to_string())),
            SaveAction::Encrypt { plaintext, prf } => {
                o.encryptions += 1;
                SaveEvent::Encrypted(Ok(format!("enc[{}]:{}", prf, plaintext.as_str())))
            }
            SaveAction::WriteStore { account, data } => {
                if o.fail_write.as_deref() == Some(account) {
                    SaveEvent::Written(Err(format!("cannot write {}", account)))
                } else {
                    o.order.push(account.to_string());
                    o.written.insert(account.to_string(), data);
                    SaveEvent::Written(Ok(()))
                }
            }
            SaveAction::Done(report) => return Some(report),
            SaveAction::Idle => panic!("the save stalled"),
        };
        action = c.advance_save(&mut session, event);
    }
}

fn with_keys(bio: bool) -> AppController {
    let mut c = AppController::new(use_wallet_state(if bio { Some("true".to_string()) } else { None }, None));
    c.s.mainnet_secret_key = Some(SecretString::new("SMAIN".to_string()));
    c.s.testnet_secret_key = Some(SecretString::new("STEST".to_string()));
    c
}

#[test]
fn saving_needs_biometrics_outside_localhost() {
    let mut c = with_keys(false);
    assert!(matches!(c.save_all_to_store(false), SaveStart::BiometricRequired));
    assert!(c.s.biometric_save_modal_open);
}

#[test]
fn nothing_to_save() {
    let mut c = AppController::new(use_wallet_state(Some("true".to_string()), None));
    assert!(matches!(c.save_all_to_store(false), SaveStart::NothingToSave));
    assert!(!c.s.biometric_save_modal_open);
}

#[test]
fn localhost_saves_plain_mainnet_first() {
    let mut c = with_keys(false);
    let mut o = outside();
    assert!(matches!(run(&mut c, true, &mut o), Some(SaveReport::Saved)));
    assert_eq!(o.order, vec!["mainnet_account", "testnet_account"]);
    assert_eq!(o.written["mainnet_account"], "SMAIN");
    assert_eq!(o.written["testnet_account"], "STEST");
    assert_eq!(o.encryptions, 0);
}

#[test]
fn biometric_save_encrypts_with_the_passkey_key() {
    let mut c = with_keys(true);
    c.s.mainnet_secret_key = None;
    let mut o = outside();
    o.passkey = Some(PasskeyResult { success: true, prf_key: Some("K".to_string()), error: None });
    assert!(matches!(run(&mut c, false, &mut o), Some(SaveReport::Saved)));
    assert_eq!(o.order, vec!["testnet_account"]);
    assert_eq!(o.written["testnet_account"], "enc[K]:STEST");
    assert_eq!(c.s.prf_key, Some("K".to_string()));
}

#[test]
fn held_prf_key_encrypts_without_passkey() {
    let mut c = with_keys(true);
    c.s.prf_key = Some("P".to_string());
    let mut o = outside();
    assert!(matches!(run(&mut c, false, &mut o), Some(SaveReport::Saved)));
    assert_eq!(o.written["mainnet_account"], "enc[P]:SMAIN");
    assert_eq!(o.written["testnet_account"], "enc[P]:STEST");
    assert_eq!(o.encryptions, 2);
}

#[test]
fn save_aborts_without_a_prf_key() {
    let mut c = with_keys(true);
    let mut o = outside();
    o.passkey = Some(PasskeyResult { success: true, prf_key: None, error: None });
    assert!(matches!(run(&mut c, false, &mut o), Some(SaveReport::Aborted(PrfFailure::NoPrfKey))));
    assert!(o.written.is_empty());
    let mut d = with_keys(true);
    let mut o = outside();
    assert!(matches!(run(&mut d, false, &mut o), Some(SaveReport::Aborted(PrfFailure::AuthenticationFailed))));
    assert!(o.written.is_empty());
}

#[test]
fn a_failed_write_stops_the_save() {
    let mut c = with_keys(false);
    let mut o = outside();
    o.fail_write = Some("mainnet_account".to_string());
    match run(&mut c, true, &mut o) {
        Some(SaveReport::Failed(m)) => assert_eq!(m, "cannot write mainnet_account"),
        _ => panic!("expected a failure"),
    }
    assert!(o.written.is_empty());
}

#[test]
fn localhost_pin_encrypts_the_save() {
    let mut c = with_keys(false);
    c.s.pin_code = "1234".to_string();
    let mut o = outside();
    assert!(matches!(run(&mut c, true, &mut o), Some(SaveReport::Saved)));
    assert_eq!(o.order, vec!["mainnet_account", "testnet_account"]);
    assert_eq!(o.written["mainnet_account"], "enc[1234]:SMAIN");
    assert_eq!(o.written["testnet_account"], "enc[1234]:STEST");
    assert_eq!(o.encryptions, 2);
    assert_eq!(c.s.prf_key, None);
}
