//! The file encryption panel and the steps of its workers.
//!
//! A worker reads the chosen file, encrypts or decrypts its contents and writes the
//! result next to it. Reading and writing happen around this module; the decisions
//! between them happen here.

use crate::credentials::{credentials_refused, Credentials};
use crate::notice::{shows_loading, shows_message, WindowMsg};
use crate::paths::{decrypted_path, decrypted_path_of, encrypted_path, encrypted_path_of};
use crate::secret::SecretError;
use ncrypt_me::error::Error;
use ncrypt_me::secure_types::{SecureBytes, SecureVec};
use ncrypt_me::Argon2;
use ncrypt_me::Credentials as CipherCredentials;
use vstd::prelude::*;
use vstd::string::{StrSliceExecFns, StringExecFns, StringSliceAdditionalSpecFns};

verus! {

#[verifier::external_type_specification]
#[verifier::external_body]
pub struct ExArgon2(Argon2);

#[verifier::external_type_specification]
#[verifier::external_body]
pub struct ExCipherCredentials(CipherCredentials);

#[verifier::external_type_specification]
#[verifier::external_body]
pub struct ExCryptoError(Error);

/// Bytes in a locked buffer that is zeroed when dropped.
#[verifier::external_body]
pub struct LockedBytes {
    inner: SecureBytes,
}

/// The bytes that a locked buffer holds.
pub uninterp spec fn locked_bytes(b: LockedBytes) -> Seq<u8>;

/// `f`, run on a slice whose contents are `b`, returned `out`.
pub open spec fn ran_on_bytes<R, F: FnOnce(&[u8]) -> R>(f: F, b: Seq<u8>, out: R) -> bool {
    exists|s: &[u8]| s@ == b && #[trigger] f.ensures((s,), out)
}

/// Relies on `SecureVec::unlock_slice`: `f` runs once on the held bytes, and what it
/// returns is returned.
#[verifier::external_body]
fn locked_unlock<R, F: FnOnce(&[u8]) -> R>(b: &LockedBytes, f: F) -> (out: R)
    requires
        forall|s: &[u8]| s@ == locked_bytes(*b) ==> f.requires((s,)),
    ensures
        ran_on_bytes(f, locked_bytes(*b), out),
{
    b.inner.unlock_slice(f)
}

impl LockedBytes {
    /// Runs `f` on the held bytes and returns its result; the bytes are reachable
    /// only for the duration of the call.
    pub fn with_bytes<R, F: FnOnce(&[u8]) -> R>(&self, f: F) -> (out: R)
        requires
            forall|s: &[u8]| s@ == locked_bytes(*self) ==> f.requires((s,)),
        ensures
            ran_on_bytes(f, locked_bytes(*self), out),
    {
        locked_unlock(self, f)
    }
}

/// The 8 bytes that open every encrypted file: `nCrypt2` and a zero byte.
pub open spec fn encrypted_header() -> Seq<u8> {
    seq![110u8, 67u8, 114u8, 121u8, 112u8, 116u8, 50u8, 0u8]
}

/// Whether `data` has the header and the 4-byte length that follows it.
pub open spec fn has_header(data: Seq<u8>) -> bool {
    data.len() >= 12 && data.subrange(0, 8) == encrypted_header()
}

/// Relies on `Argon2::balanced`: the preset that the panel starts with.
#[verifier::external_body]
pub(crate) fn balanced_argon2() -> (r: Argon2) {
    Argon2::balanced()
}

/// Relies on `SecureVec::from_vec`: the bytes move into a locked buffer, which may
/// fail to be allocated or locked.
#[verifier::external_body]
fn secure_bytes_from_vec(data: Vec<u8>) -> (r: Result<LockedBytes, ncrypt_me::secure_types::Error>)
    ensures
        r matches Ok(b) ==> locked_bytes(b) == data@,
{
    SecureVec::from_vec(data).map(|inner| LockedBytes { inner })
}

/// What ncrypt-me's decryption gives for the encrypted file `c` under the username,
/// password and confirmation `user`, `pass`, `confirm`: the plaintext, or `None`
/// where it refuses them. It depends on these bytes alone: the salts, the nonce and
/// the Argon2 parameters are read from `c`.
pub uninterp spec fn decrypted_of(c: Seq<u8>, user: Seq<u8>, pass: Seq<u8>, confirm: Seq<u8>) -> Option<
    Seq<u8>,
>;

/// Relies on `ncrypt_me::encrypt_data`, given `ncrypt_me::Credentials::new` over
/// copies of the three secrets: what it returns starts with the header and a 4-byte
/// length, and decrypts under the same credentials to the data given. Invalid
/// credentials are refused.
#[verifier::external_body]
fn encrypt_data(argon2: Argon2, data: LockedBytes, credentials: &Credentials) -> (r: Result<
    Vec<u8>,
    Error,
>)
    ensures
        r matches Ok(c) ==> has_header(c@),
        r matches Ok(c) ==> decrypted_of(
            c@,
            credentials.username@,
            credentials.password@,
            credentials.confirm_password@,
        ) == Some(locked_bytes(data)),
        credentials_refused(credentials@) ==> r is Err,
{
    let credentials = CipherCredentials::new(
        credentials.username.inner.clone(),
        credentials.password.inner.clone(),
        credentials.confirm_password.inner.clone(),
    );
    ncrypt_me::encrypt_data(argon2, data.inner, credentials)
}

/// Relies on `ncrypt_me::decrypt_data`, given `ncrypt_me::Credentials::new` over
/// copies of the three secrets: data without the header and its length is refused,
/// a plaintext returned is the one that decryption gives, and where decryption
/// refuses, so does the call. Invalid credentials are refused.
#[verifier::external_body]
fn decrypt_data(data: Vec<u8>, credentials: &Credentials) -> (r: Result<LockedBytes, Error>)
    ensures
        r is Ok ==> has_header(data@),
        r matches Ok(plain) ==> decrypted_of(
            data@,
            credentials.username@,
            credentials.password@,
            credentials.confirm_password@,
        ) == Some(locked_bytes(plain)),
        decrypted_of(
            data@,
            credentials.username@,
            credentials.password@,
            credentials.confirm_password@,
        ) is None ==> r is Err,
        credentials_refused(credentials@) ==> r is Err,
{
    let credentials = CipherCredentials::new(
        credentials.username.inner.clone(),
        credentials.password.inner.clone(),
        credentials.confirm_password.inner.clone(),
    );
    ncrypt_me::decrypt_data(data, credentials).map(|inner| LockedBytes { inner })
}

/// Relies on the `Display` of `ncrypt_me::error::Error`: a description for the user.
#[verifier::external_body]
fn crypto_error_text(e: &Error) -> (r: String) {
    e.to_string()
}

/// Relies on the `Display` of `secure_types::Error`: a description for the user.
#[verifier::external_body]
fn secure_error_text(e: &ncrypt_me::secure_types::Error) -> (r: String) {
    e.to_string()
}

/// Why encryption or decryption failed.
pub enum CryptoError {
    /// The contents could not be moved into a locked buffer, for the reason given.
    Allocation(String),
    /// The crypto library refused, for the reason given.
    Failed(String),
}

/// The message that reports `e` during `op`.
pub open spec fn crypto_error_message(op: Operation, e: CryptoError) -> Seq<char> {
    match e {
        CryptoError::Allocation(t) => "Error creating secure data: "@ + t@,
        CryptoError::Failed(t) => match op {
            Operation::Encrypt => "Error encrypting file: "@ + t@,
            Operation::Decrypt => "Error decrypting file: "@ + t@,
        },
    }
}

/// `c` is an encrypted file that decrypts to `plain` under the credentials `k`.
pub open spec fn seals(c: Seq<u8>, plain: Seq<u8>, k: (Seq<u8>, Seq<u8>, Seq<u8>)) -> bool {
    has_header(c) && decrypted_of(c, k.0, k.1, k.2) == Some(plain)
}

/// What decrypting `c` under the credentials `k` gives.
pub open spec fn opened(c: Seq<u8>, k: (Seq<u8>, Seq<u8>, Seq<u8>)) -> Option<Seq<u8>> {
    decrypted_of(c, k.0, k.1, k.2)
}

/// Encrypts `contents` with `credentials`, keys derived under `argon2`. A result is
/// an encrypted file that decrypts to `contents` under the same credentials.
/// Invalid credentials are refused.
pub fn encrypt_contents(argon2: Argon2, contents: Vec<u8>, credentials: &Credentials) -> (r: Result<
    Vec<u8>,
    CryptoError,
>)
    ensures
        r matches Ok(c) ==> seals(c@, contents@, credentials@),
        credentials_refused(credentials@) ==> r is Err,
{
    let data = match secure_bytes_from_vec(contents) {
        Ok(d) => d,
        Err(e) => return Err(CryptoError::Allocation(secure_error_text(&e))),
    };
    match encrypt_data(argon2, data, credentials) {
        Ok(c) => Ok(c),
        Err(e) => Err(CryptoError::Failed(crypto_error_text(&e))),
    }
}

/// Decrypts `contents` with `credentials`: a plaintext returned is the one that
/// decryption gives; contents without the header of an encrypted file, contents
/// that do not decrypt and invalid credentials are refused.
pub fn decrypt_contents(contents: Vec<u8>, credentials: &Credentials) -> (r: Result<
    LockedBytes,
    CryptoError,
>)
    ensures
        r matches Ok(plain) ==> opened(contents@, credentials@) == Some(locked_bytes(plain)),
        opened(contents@, credentials@) is None ==> r is Err,
        !has_header(contents@) ==> r is Err,
        credentials_refused(credentials@) ==> r is Err,
{
    match decrypt_data(contents, credentials) {
        Ok(p) => Ok(p),
        Err(e) => Err(CryptoError::Failed(crypto_error_text(&e))),
    }
}

/// Which way a worker transforms a file.
#[derive(Clone, Copy, Debug, PartialEq, Eq, Structural)]
pub enum Operation {
    Encrypt,
    Decrypt,
}

/// How a worker ended.
pub enum Outcome {
    /// The file could not be read, for the reason given.
    ReadFailed(String),
    /// Encryption or decryption failed, for the reason given.
    CryptoFailed(CryptoError),
    /// The result could not be written, for the reason given.
    WriteFailed(String),
    /// The result was written to the path given.
    Written(String),
}

/// What a worker does once it has read the file.
pub enum Next<D> {
    /// It stops, and reports the outcome.
    Publish(Outcome),
    /// It writes the data to the path.
    Write(String, D),
}

/// The loading text shown while a worker runs.
pub open spec fn loading_message(op: Operation) -> Seq<char> {
    match op {
        Operation::Encrypt => "Encrypting..."@,
        Operation::Decrypt => "Decrypting..."@,
    }
}

/// The title of the notice that reports `o`.
pub open spec fn outcome_title(op: Operation, o: Outcome) -> Seq<char> {
    match o {
        Outcome::ReadFailed(_) => "Failed to read file"@,
        Outcome::CryptoFailed(_) => match op {
            Operation::Encrypt => "Failed to encrypt file"@,
            Operation::Decrypt => "Failed to decrypt file"@,
        },
        Outcome::WriteFailed(_) => match op {
            Operation::Encrypt => "Failed to save the encrypted file"@,
            Operation::Decrypt => "Failed to save decrypted file"@,
        },
        Outcome::Written(_) => "Success"@,
    }
}

/// The message of the notice that reports `o`.
pub open spec fn outcome_message(op: Operation, o: Outcome) -> Seq<char> {
    match o {
        Outcome::ReadFailed(e) => "Error reading file: "@ + e@,
        Outcome::CryptoFailed(e) => crypto_error_message(op, e),
        Outcome::WriteFailed(e) => "Error writing file: "@ + e@,
        Outcome::Written(path) => match op {
            Operation::Encrypt => "File encrypted successfully to "@ + path@,
            Operation::Decrypt => "File decrypted successfully to "@ + path@,
        },
    }
}

/// Shows the loading notice of a worker that starts.
pub fn begin(slot: &mut WindowMsg, op: Operation)
    ensures
        shows_loading(*final(slot), loading_message(op)),
{
    let text = match op {
        Operation::Encrypt => String::from_str("Encrypting..."),
        Operation::Decrypt => String::from_str("Decrypting..."),
    };
    slot.open_with_loading(text);
}

/// Replaces the notice with the report of `outcome`.
pub fn publish(slot: &mut WindowMsg, op: Operation, outcome: Outcome)
    ensures
        shows_message(*final(slot), outcome_title(op, outcome), outcome_message(op, outcome)),
{
    let (title, message) = match outcome {
        Outcome::ReadFailed(e) => (
            String::from_str("Failed to read file"),
            String::from_str("Error reading file: ").concat(e.as_str()),
        ),
        Outcome::CryptoFailed(e) => {
            let title = match op {
                Operation::Encrypt => String::from_str("Failed to encrypt file"),
                Operation::Decrypt => String::from_str("Failed to decrypt file"),
            };
            let message = match e {
                CryptoError::Allocation(t) => String::from_str(
                    "Error creating secure data: ",
                ).concat(t.as_str()),
                CryptoError::Failed(t) => match op {
                    Operation::Encrypt => String::from_str("Error encrypting file: ").concat(
                        t.as_str(),
                    ),
                    Operation::Decrypt => String::from_str("Error decrypting file: ").concat(
                        t.as_str(),
                    ),
                },
            };
            (title, message)
        },
        Outcome::WriteFailed(e) => (
            match op {
                Operation::Encrypt => String::from_str("Failed to save the encrypted file"),
                Operation::Decrypt => String::from_str("Failed to save decrypted file"),
            },
            String::from_str("Error writing file: ").concat(e.as_str()),
        ),
        Outcome::Written(path) => (
            String::from_str("Success"),
            match op {
                Operation::Encrypt => String::from_str("File encrypted successfully to ").concat(
                    path.as_str(),
                ),
                Operation::Decrypt => String::from_str("File decrypted successfully to ").concat(
                    path.as_str(),
                ),
            },
        ),
    };
    slot.open_with_msg(title, message);
}

/// What a worker does with the result of encryption or decryption: it writes the data
/// to `out_path`, or reports why the crypto library failed.
pub fn after_crypto<D>(out_path: String, result: Result<D, CryptoError>) -> (r: Next<D>)
    ensures
        result matches Ok(d) ==> (r matches Next::Write(p, x) && p@ == out_path@ && x == d),
        result matches Err(e) ==> (r matches Next::Publish(Outcome::CryptoFailed(x)) && x == e),
{
    match result {
        Ok(d) => Next::Write(out_path, d),
        Err(e) => Next::Publish(Outcome::CryptoFailed(e)),
    }
}

/// The step reports that encryption or decryption failed.
pub open spec fn reports_crypto_failure<D>(r: Next<D>) -> bool {
    r matches Next::Publish(Outcome::CryptoFailed(_))
}

/// The step writes to `path` an encrypted file that decrypts to `plain` under `k`.
pub open spec fn writes_sealed(
    r: Next<Vec<u8>>,
    path: Seq<char>,
    plain: Seq<u8>,
    k: (Seq<u8>, Seq<u8>, Seq<u8>),
) -> bool {
    match r {
        Next::Write(p, c) => p@ == path && seals(c@, plain, k),
        Next::Publish(_) => false,
    }
}

/// The step writes to `path` what `c` decrypts to under `k`.
pub open spec fn writes_opened(
    r: Next<LockedBytes>,
    path: Seq<char>,
    c: Seq<u8>,
    k: (Seq<u8>, Seq<u8>, Seq<u8>),
) -> bool {
    match r {
        Next::Write(p, plain) => p@ == path && opened(c, k) == Some(locked_bytes(plain)),
        Next::Publish(_) => false,
    }
}

/// Decryption undoes encryption: an encrypted file written for `plain` under the
/// credentials `k`, decrypted under the same `k`, gives exactly `plain`.
pub proof fn lemma_decrypt_undoes_encrypt(
    c: Seq<u8>,
    plain: Seq<u8>,
    k: (Seq<u8>, Seq<u8>, Seq<u8>),
    decrypted: LockedBytes,
)
    requires
        seals(c, plain, k),
        opened(c, k) == Some(locked_bytes(decrypted)),
    ensures
        opened(c, k) == Some(plain),
        locked_bytes(decrypted) == plain,
{
}

/// What an encryption worker does once it has read `path`: on a read error it reports
/// it; otherwise it encrypts, and writes to the path with the suffix an encrypted file
/// that decrypts to what was read, or reports why encryption failed.
pub fn encrypt_step(
    path: &str,
    argon2: Argon2,
    credentials: &Credentials,
    read: Result<Vec<u8>, String>,
) -> (r: Next<Vec<u8>>)
    ensures
        read matches Err(e) ==> r matches Next::Publish(Outcome::ReadFailed(m)) && m@ == e@,
        read matches Ok(b) ==> reports_crypto_failure(r) || writes_sealed(
            r,
            encrypted_path_of(path@),
            b@,
            credentials@,
        ),
        read is Ok && credentials_refused(credentials@) ==> reports_crypto_failure(r),
{
    match read {
        Err(e) => Next::Publish(Outcome::ReadFailed(e)),
        Ok(contents) => after_crypto(
            encrypted_path(path),
            encrypt_contents(argon2, contents, credentials),
        ),
    }
}

/// What a decryption worker does once it has read `path`: on a read error it reports
/// it; otherwise it decrypts, and writes the plaintext to the path without the suffix
/// or reports why decryption failed. Contents that do not decrypt under the
/// credentials are never written.
pub fn decrypt_step(path: &str, credentials: &Credentials, read: Result<Vec<u8>, String>) -> (r:
    Next<LockedBytes>)
    ensures
        read matches Err(e) ==> r matches Next::Publish(Outcome::ReadFailed(m)) && m@ == e@,
        read matches Ok(d) ==> reports_crypto_failure(r) || writes_opened(
            r,
            decrypted_path_of(path@),
            d@,
            credentials@,
        ),
        read matches Ok(d) && (opened(d@, credentials@) is None || !has_header(d@)
            || credentials_refused(credentials@)) ==> reports_crypto_failure(r),
{
    match read {
        Err(e) => Next::Publish(Outcome::ReadFailed(e)),
        Ok(contents) => after_crypto(decrypted_path(path), decrypt_contents(contents, credentials)),
    }
}

/// The outcome of writing to `path`.
pub fn write_outcome(path: String, write: Result<(), String>) -> (r: Outcome)
    ensures
        write is Ok ==> (r matches Outcome::Written(p) && p@ == path@),
        write matches Err(e) ==> r matches Outcome::WriteFailed(m) && m@ == e@,
{
    match write {
        Ok(()) => Outcome::Written(path),
        Err(e) => Outcome::WriteFailed(e),
    }
}

/// State of the file encryption panel.
pub struct FileEncryptionUi {
    pub open: bool,
    pub credentials: Credentials,
    pub file_path: String,
}

/// The longest path, in characters, shown in full.
pub const SHOWN_PATH_CHARS: usize = 50;

/// How the panel shows `path`: in full when it has at most 50 bytes, else its first
/// 50 characters and an ellipsis.
pub open spec fn shown_path_of(path: &str) -> Seq<char> {
    if path.spec_bytes().len() > 50 {
        let n = if path@.len() < 50 {
            path@.len() as int
        } else {
            50
        };
        path@.subrange(0, n) + "..."@
    } else {
        path@
    }
}

/// How the panel shows `path`: in full when it has at most 50 bytes, else its first
/// 50 characters and an ellipsis.
pub fn shown_path(path: &str) -> (r: String)
    ensures
        r@ == shown_path_of(path),
{
    let bytes = path.as_bytes();
    if bytes.len() > SHOWN_PATH_CHARS {
        let chars = path.unicode_len();
        let n = if chars < SHOWN_PATH_CHARS {
            chars
        } else {
            SHOWN_PATH_CHARS
        };
        String::from_str(path.substring_char(0, n)).concat("...")
    } else {
        String::from_str(path)
    }
}

impl FileEncryptionUi {
    /// An open panel with no file and empty credentials, each field with room for
    /// `capacity` bytes.
    pub fn new(capacity: usize) -> (r: Result<FileEncryptionUi, SecretError>)
        ensures
            r matches Ok(f) ==> {
                &&& f.open
                &&& f.file_path@ == Seq::<char>::empty()
                &&& f.credentials@ == (Seq::<u8>::empty(), Seq::<u8>::empty(), Seq::<u8>::empty())
            },
    {
        let credentials = Credentials::new_with_capacity(capacity)?;
        Ok(FileEncryptionUi { open: true, credentials, file_path: String::new() })
    }

    /// What a worker takes along: copies of the path and the credentials, which the
    /// worker owns and may outlive the frame.
    pub fn snapshot(&self) -> (r: (String, Credentials))
        ensures
            r.0@ == self.file_path@,
            r.1@ == self.credentials@,
    {
        (self.file_path.clone(), self.credentials.clone())
    }
}

} // verus!
