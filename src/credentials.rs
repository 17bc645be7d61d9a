//! Username, password and its confirmation, kept and erased together.

use crate::secret::{SecretError, SecureValue};
use vstd::prelude::*;

verus! {

/// The three secrets from which an encryption key is derived.
pub struct Credentials {
    pub username: SecureValue,
    pub password: SecureValue,
    pub confirm_password: SecureValue,
}

impl View for Credentials {
    type V = (Seq<u8>, Seq<u8>, Seq<u8>);

    open spec fn view(&self) -> (Seq<u8>, Seq<u8>, Seq<u8>) {
        (self.username@, self.password@, self.confirm_password@)
    }
}

/// All three fields are empty and marked erased.
pub open spec fn all_erased(c: Credentials) -> bool {
    &&& c.username@ == Seq::<u8>::empty() && c.username.spec_erased()
    &&& c.password@ == Seq::<u8>::empty() && c.password.spec_erased()
    &&& c.confirm_password@ == Seq::<u8>::empty() && c.confirm_password.spec_erased()
}

/// Credentials that ncrypt-me refuses before any key is derived: an empty field, or
/// a confirmation that differs from the password.
pub open spec fn credentials_refused(k: (Seq<u8>, Seq<u8>, Seq<u8>)) -> bool {
    k.0.len() == 0 || k.1.len() == 0 || k.2.len() == 0 || k.1 != k.2
}

impl Credentials {
    /// Empty credentials, each field with room for `capacity` bytes.
    pub fn new_with_capacity(capacity: usize) -> (r: Result<Credentials, SecretError>)
        ensures
            r matches Ok(c) ==> c@ == (Seq::<u8>::empty(), Seq::<u8>::empty(), Seq::<u8>::empty()),
    {
        let username = SecureValue::with_capacity(capacity)?;
        let password = SecureValue::with_capacity(capacity)?;
        let confirm_password = SecureValue::with_capacity(capacity)?;
        Ok(Credentials { username, password, confirm_password })
    }

    /// Erases the username, the password and the confirmation, in that order.
    pub fn erase(&mut self)
        ensures
            all_erased(*final(self)),
    {
        self.username.erase();
        self.password.erase();
        self.confirm_password.erase();
    }
}

impl Clone for Credentials {
    /// Copies each field into a buffer of its own.
    fn clone(&self) -> (r: Credentials)
        ensures
            r@ == self@,
            r.username.spec_erased() == self.username.spec_erased(),
            r.password.spec_erased() == self.password.spec_erased(),
            r.confirm_password.spec_erased() == self.confirm_password.spec_erased(),
    {
        Credentials {
            username: self.username.clone(),
            password: self.password.clone(),
            confirm_password: self.confirm_password.clone(),
        }
    }
}

} // verus!
