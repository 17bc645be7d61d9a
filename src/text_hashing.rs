//! The text hashing panel: a secret input, its algorithm and the secret hex output.

use crate::hashing::{digest_len, digest_of, hash_text, hex_of, is_hex_digit, HashAlgorithm};
use crate::secret::{SecretError, SecureValue};
use vstd::prelude::*;
use vstd::string::StringSliceAdditionalSpecFns;
use vstd::utf8::{encode_utf8, is_ascii_chars, is_ascii_chars_encode_utf8};

verus! {

/// The bytes that the output holds for `input` hashed under `algorithm`.
pub open spec fn hash_output(algorithm: HashAlgorithm, input: Seq<u8>) -> Seq<u8> {
    encode_utf8(hex_of(digest_of(algorithm, input)))
}

/// State of the text hashing panel.
pub struct TextHashingUi {
    pub open: bool,
    pub algorithm: HashAlgorithm,
    pub input_text: SecureValue,
    pub output_hash: SecureValue,
}

impl TextHashingUi {
    /// A closed panel with SHA3-224 selected and empty input and output, each with room
    /// for `capacity` bytes.
    pub fn new(capacity: usize) -> (r: Result<TextHashingUi, SecretError>)
        ensures
            r matches Ok(t) ==> {
                &&& !t.open
                &&& t.algorithm == HashAlgorithm::Sha3_224
                &&& t.input_text@ == Seq::<u8>::empty()
                &&& t.output_hash@ == Seq::<u8>::empty()
            },
    {
        let input_text = SecureValue::with_capacity(capacity)?;
        let output_hash = SecureValue::with_capacity(capacity)?;
        Ok(TextHashingUi { open: false, algorithm: HashAlgorithm::Sha3_224, input_text, output_hash })
    }

    /// Replaces the output with the hex digest of the input. An empty input is not
    /// hashed, and the output is left as it was. An error means the new output could
    /// not be allocated, and the output is left as it was.
    pub fn calculate_hash(&mut self) -> (r: Result<(), SecretError>)
        ensures
            final(self).open == old(self).open,
            final(self).algorithm == old(self).algorithm,
            final(self).input_text@ == old(self).input_text@,
            final(self).input_text.spec_erased() == old(self).input_text.spec_erased(),
            old(self).input_text@.len() == 0 ==> r is Ok && final(self).output_hash@ == old(
                self,
            ).output_hash@ && final(self).output_hash.spec_erased() == old(
                self,
            ).output_hash.spec_erased(),
            old(self).input_text@.len() != 0 && r is Ok ==> final(self).output_hash@
                == hash_output(old(self).algorithm, old(self).input_text@),
            old(self).input_text@.len() != 0 && r is Ok ==> final(self).output_hash@.len() == 2
                * digest_len(old(self).algorithm),
            r is Err ==> final(self).output_hash@ == old(self).output_hash@,
    {
        if self.input_text.is_empty() {
            return Ok(());
        }
        let algorithm = self.algorithm;
        let hex = self.input_text.with_ref(|t: &str| -> (h: String)
            ensures
                h@ == hex_of(digest_of(algorithm, t.spec_bytes())),
                h@.len() == 2 * digest_len(algorithm),
                forall|i: int| 0 <= i < h@.len() ==> is_hex_digit(#[trigger] h@[i]),
        {
            hash_text(algorithm, t)
        });
        proof {
            assert(is_ascii_chars(hex@));
            is_ascii_chars_encode_utf8(hex@);
        }
        let output = SecureValue::from_text(hex.as_str())?;
        self.output_hash = output;
        Ok(())
    }

    /// After an edit of the input: the output is the digest of the new input, or
    /// erased when the input is empty.
    pub fn input_edited(&mut self) -> (r: Result<(), SecretError>)
        ensures
            final(self).open == old(self).open,
            final(self).algorithm == old(self).algorithm,
            final(self).input_text@ == old(self).input_text@,
            old(self).input_text@.len() == 0 ==> r is Ok && final(self).output_hash@
                == Seq::<u8>::empty() && final(self).output_hash.spec_erased(),
            old(self).input_text@.len() != 0 && r is Ok ==> final(self).output_hash@
                == hash_output(old(self).algorithm, old(self).input_text@),
            old(self).input_text@.len() != 0 && r is Ok ==> final(self).output_hash@.len() == 2
                * digest_len(old(self).algorithm),
            r is Err ==> final(self).output_hash@ == old(self).output_hash@,
    {
        let r = self.calculate_hash();
        if self.input_text.is_empty() {
            self.output_hash.erase();
        }
        r
    }

    /// Selects `algorithm` and hashes the input again under it.
    pub fn select_algorithm(&mut self, algorithm: HashAlgorithm) -> (r: Result<(), SecretError>)
        ensures
            final(self).open == old(self).open,
            final(self).algorithm == algorithm,
            final(self).input_text@ == old(self).input_text@,
            old(self).input_text@.len() == 0 ==> r is Ok && final(self).output_hash@ == old(
                self,
            ).output_hash@,
            old(self).input_text@.len() != 0 && r is Ok ==> final(self).output_hash@
                == hash_output(algorithm, old(self).input_text@),
            old(self).input_text@.len() != 0 && r is Ok ==> final(self).output_hash@.len() == 2
                * digest_len(algorithm),
            r is Err ==> final(self).output_hash@ == old(self).output_hash@,
    {
        self.algorithm = algorithm;
        self.calculate_hash()
    }

    /// Erases the input and the output.
    pub fn erase(&mut self)
        ensures
            final(self).open == old(self).open,
            final(self).algorithm == old(self).algorithm,
            final(self).input_text@ == Seq::<u8>::empty(),
            final(self).input_text.spec_erased(),
            final(self).output_hash@ == Seq::<u8>::empty(),
            final(self).output_hash.spec_erased(),
    {
        self.input_text.erase();
        self.output_hash.erase();
    }
}

} // verus!
