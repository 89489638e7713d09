use vstd::prelude::*;

verus! {

/// A secret string that is wiped from memory when it is dropped.
///
/// The text is held in a `zeroize::Zeroizing<String>`, whose declaration is
/// bounded by a trait of the `zeroize` crate and so cannot be declared here;
/// the holder is opaque and its text is named by `secret_text`.
#[verifier::external_body]
pub struct SecretString {
    inner: zeroize::Zeroizing<String>,
}

/// The text that a `SecretString` holds.
pub uninterp spec fn secret_text(s: SecretString) -> Seq<char>;

impl View for SecretString {
    type V = Seq<char>;

    open spec fn view(&self) -> Seq<char> {
        secret_text(*self)
    }
}

/// The text of an optional secret.
pub open spec fn opt_secret_text(o: Option<SecretString>) -> Option<Seq<char>> {
    match o {
        Some(s) => Some(s@),
        None => None,
    }
}

impl SecretString {
    /// Calls `zeroize::Zeroizing::new`, which moves the string into the
    /// wiping wrapper unchanged: the secret holds exactly the given text.
    #[verifier::external_body]
    pub fn new(s: String) -> (r: SecretString)
        ensures
            secret_text(r) == s@,
    {
        SecretString { inner: zeroize::Zeroizing::new(s) }
    }

    /// Calls `Deref::deref` of `zeroize::Zeroizing`, which hands out the
    /// wrapped string: the result is the secret's text.
    #[verifier::external_body]
    pub fn as_str(&self) -> (r: &str)
        ensures
            r@ == secret_text(*self),
    {
        self.inner.as_str()
    }

    /// Calls `Clone::clone` of `zeroize::Zeroizing`, which clones the wrapped
    /// string: the copy holds the same text.
    #[verifier::external_body]
    pub fn duplicate(&self) -> (r: SecretString)
        ensures
            secret_text(r) == secret_text(*self),
    {
        SecretString { inner: self.inner.clone() }
    }
}

} // verus!
