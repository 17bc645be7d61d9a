//! A container for one secret, reached only through scoped access.

use ncrypt_me::secure_types::{self, SecureString};
use vstd::prelude::*;
use vstd::string::StringSliceAdditionalSpecFns;
use vstd::utf8::encode_scalar;

verus! {

#[verifier::external_type_specification]
#[verifier::external_body]
pub struct ExSecureString(SecureString);

#[verifier::external_type_specification]
#[verifier::external_body]
pub struct ExSecureTypesError(secure_types::Error);

/// The bytes that a secure string holds.
pub uninterp spec fn secure_bytes(s: SecureString) -> Seq<u8>;

/// Why a secret could not be set up.
#[derive(Clone, Copy, Debug, PartialEq, Eq, Structural)]
pub enum SecretError {
    /// The locked buffer could not be allocated.
    AllocationError,
}

/// Relies on `SecureString::new_with_capacity`: a new string is empty.
#[verifier::external_body]
fn secure_string_with_capacity(capacity: usize) -> (r: Result<SecureString, secure_types::Error>)
    ensures
        r matches Ok(s) ==> secure_bytes(s) == Seq::<u8>::empty(),
{
    SecureString::new_with_capacity(capacity)
}

/// Relies on `SecureString::erase`: the bytes are zeroed and the length set to zero.
#[verifier::external_body]
fn secure_string_erase(s: &mut SecureString)
    ensures
        secure_bytes(*final(s)) == Seq::<u8>::empty(),
{
    s.erase()
}

/// Relies on `SecureString::push_str`: the bytes of `t` are appended.
/// It grows the locked buffer where needed and panics only if that allocation fails.
#[verifier::external_body]
fn secure_string_push_str(s: &mut SecureString, t: &str)
    ensures
        secure_bytes(*final(s)) == secure_bytes(*old(s)) + t.spec_bytes(),
{
    s.push_str(t)
}

/// Relies on `SecureString`'s `Clone`: a fresh locked buffer with the same bytes.
/// It panics only if that allocation fails.
#[verifier::external_body]
fn secure_string_clone(s: &SecureString) -> (r: SecureString)
    ensures
        secure_bytes(r) == secure_bytes(*s),
{
    s.clone()
}

/// `f`, run on a text whose bytes are `b`, returned `out`.
pub open spec fn ran_on_text<R, F: FnOnce(&str) -> R>(f: F, b: Seq<u8>, out: R) -> bool {
    exists|t: &str| t.spec_bytes() == b && #[trigger] f.ensures((t,), out)
}

/// Relies on `SecureString::unlock_str`: `f` runs once on the held text, and what it
/// returns is returned.
#[verifier::external_body]
fn secure_string_unlock<R>(s: &SecureString, f: impl FnOnce(&str) -> R) -> (out: R)
    requires
        forall|t: &str| t.spec_bytes() == secure_bytes(*s) ==> f.requires((t,)),
    ensures
        ran_on_text(f, secure_bytes(*s), out),
{
    s.unlock_str(f)
}

/// Relies on `SecureString::secure_mut`: `f` runs once on the string itself, and what
/// it returns is returned.
#[verifier::external_body]
fn secure_string_mut<R, F: FnOnce(&mut SecureString) -> R>(s: &mut SecureString, f: F) -> (out: R)
    requires
        forall|t: &mut SecureString| f.requires((t,)),
    ensures
        exists|t: &mut SecureString|
            secure_bytes(*t) == secure_bytes(*old(s)) && secure_bytes(*final(t)) == secure_bytes(
                *final(s),
            ) && #[trigger] f.ensures((t,), out),
{
    s.secure_mut(f)
}

/// One secret: a locked buffer that is read only inside a scoped call and erased by
/// its owner.
pub struct SecureValue {
    pub(crate) inner: SecureString,
    erased: bool,
}

impl View for SecureValue {
    type V = Seq<u8>;

    closed spec fn view(&self) -> Seq<u8> {
        secure_bytes(self.inner)
    }
}

impl SecureValue {
    /// Whether the last change to this value was an erasure.
    pub closed spec fn spec_erased(&self) -> bool {
        self.erased
    }

    /// An empty secret with room for `capacity` bytes.
    pub fn with_capacity(capacity: usize) -> (r: Result<SecureValue, SecretError>)
        ensures
            r matches Ok(v) ==> v@ == Seq::<u8>::empty() && !v.spec_erased(),
    {
        match secure_string_with_capacity(capacity) {
            Ok(inner) => Ok(SecureValue { inner, erased: false }),
            Err(_) => Err(SecretError::AllocationError),
        }
    }

    /// A secret that holds the bytes of `text`.
    pub fn from_text(text: &str) -> (r: Result<SecureValue, SecretError>)
        ensures
            r matches Ok(v) ==> v@ == text.spec_bytes() && !v.spec_erased(),
    {
        let mut v = SecureValue::with_capacity(text.len())?;
        secure_string_push_str(&mut v.inner, text);
        Ok(v)
    }

    /// Overwrites the held bytes with zeros and leaves the value empty.
    pub fn erase(&mut self)
        ensures
            final(self)@ == Seq::<u8>::empty(),
            final(self).spec_erased(),
    {
        secure_string_erase(&mut self.inner);
        self.erased = true;
    }

    /// Appends the bytes of `text`.
    pub fn push_text(&mut self, text: &str)
        ensures
            final(self)@ == old(self)@ + text.spec_bytes(),
            !final(self).spec_erased(),
    {
        secure_string_push_str(&mut self.inner, text);
        self.erased = false;
    }

    /// Whether the value is erased.
    pub fn is_erased(&self) -> (r: bool)
        ensures
            r == self.spec_erased(),
    {
        self.erased
    }

    /// Runs `f` on the held text and returns its result; the text is reachable only
    /// for the duration of the call.
    pub fn with_ref<R, F>(&self, f: F) -> (r: R)
        where
            F: FnOnce(&str) -> R,
        requires
            forall|t: &str| t.spec_bytes() == self@ ==> f.requires((t,)),
        ensures
            ran_on_text(f, self@, r),
    {
        secure_string_unlock(&self.inner, f)
    }

    /// Runs `f` with exclusive access to the locked string, as a text field edits it,
    /// and returns its result. What `f` leaves there is the new content.
    pub fn with_mut<R, F: FnOnce(&mut SecureString) -> R>(&mut self, f: F) -> (r: R)
        requires
            forall|t: &mut SecureString| f.requires((t,)),
        ensures
            exists|t: &mut SecureString|
                secure_bytes(*t) == old(self)@ && secure_bytes(*final(t)) == final(self)@
                    && #[trigger] f.ensures((t,), r),
            !final(self).spec_erased(),
    {
        let r = secure_string_mut(&mut self.inner, f);
        self.erased = false;
        r
    }

    /// Whether no bytes are held.
    pub fn is_empty(&self) -> (r: bool)
        ensures
            r == (self@.len() == 0),
    {
        self.with_ref(|t: &str| -> (e: bool)
            ensures e == (t.spec_bytes().len() == 0)
        {
            let e = t.is_empty();
            proof {
                if !e {
                    assert(encode_scalar(t@[0] as u32).len() >= 1);
                }
            }
            e
        })
    }
}

impl Clone for SecureValue {
    /// A copy in a buffer of its own: erasing one leaves the other as it was.
    fn clone(&self) -> (r: SecureValue)
        ensures
            r@ == self@,
            r.spec_erased() == self.spec_erased(),
    {
        SecureValue { inner: secure_string_clone(&self.inner), erased: self.erased }
    }
}

} // verus!
