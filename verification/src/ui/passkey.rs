use vstd::prelude::*;

verus! {

/// What a passkey ceremony reports: whether it succeeded, the PRF-derived key
/// it produced, and an error message.
pub struct PasskeyResult {
    pub success: bool,
    pub prf_key: Option<String>,
    pub error: Option<String>,
}

/// Why no PRF key could be had.
#[derive(Clone, Copy, PartialEq, Eq, Structural, Debug)]
pub enum PrfFailure {
    /// The passkey succeeded but produced no PRF key.
    NoPrfKey,
    /// The passkey ceremony failed or raised an error.
    AuthenticationFailed,
}

/// How the key that encrypts stored secrets is obtained.
pub enum PrfPlan {
    /// Secrets are stored as they are (localhost without a PIN, or
    /// biometrics off).
    Unencrypted,
    /// On localhost the PIN stands in for the passkey: it is the key.
    Pin(String),
    /// A PRF key from an earlier passkey ceremony is at hand.
    Ready(String),
    /// A passkey ceremony must produce the key first.
    NeedsPasskey,
}

pub open spec fn prf_plan_of(localhost: bool, biometric_on: bool, existing: Option<String>, pin: String) -> PrfPlan {
    if localhost {
        if pin@.len() > 0 {
            PrfPlan::Pin(pin)
        } else {
            PrfPlan::Unencrypted
        }
    } else if !biometric_on {
        PrfPlan::Unencrypted
    } else {
        match existing {
            Some(k) => PrfPlan::Ready(k),
            None => PrfPlan::NeedsPasskey,
        }
    }
}

/// Decides how the encryption key is obtained: on localhost the PIN when one
/// is set, else none; elsewhere none without biometrics, else the key
/// already held, or a passkey ceremony.
pub fn prf_plan(localhost: bool, biometric_on: bool, existing: Option<String>, pin: String) -> (p: PrfPlan)
    ensures
        p == prf_plan_of(localhost, biometric_on, existing, pin),
{
    if localhost {
        if pin.unicode_len() > 0 {
            PrfPlan::Pin(pin)
        } else {
            PrfPlan::Unencrypted
        }
    } else if !biometric_on {
        PrfPlan::Unencrypted
    } else {
        match existing {
            Some(k) => PrfPlan::Ready(k),
            None => PrfPlan::NeedsPasskey,
        }
    }
}

pub open spec fn prf_of_outcome(outcome: Result<PasskeyResult, String>) -> Result<String, PrfFailure> {
    match outcome {
        Ok(r) => if r.success {
            match r.prf_key {
                Some(k) => Ok(k),
                None => Err(PrfFailure::NoPrfKey),
            }
        } else {
            Err(PrfFailure::AuthenticationFailed)
        },
        Err(_) => Err(PrfFailure::AuthenticationFailed),
    }
}

/// The PRF key a passkey ceremony yields: its key when it succeeded with one.
pub fn prf_from_outcome(outcome: Result<PasskeyResult, String>) -> (r: Result<String, PrfFailure>)
    ensures
        r == prf_of_outcome(outcome),
{
    match outcome {
        Ok(res) => if res.success {
            match res.prf_key {
                Some(k) => Ok(k),
                None => Err(PrfFailure::NoPrfKey),
            }
        } else {
            Err(PrfFailure::AuthenticationFailed)
        },
        Err(_) => Err(PrfFailure::AuthenticationFailed),
    }
}

} // verus!
