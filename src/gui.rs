//! The state that the render loop and the workers share.

use crate::credentials::all_erased;
use crate::file_encryption::{balanced_argon2, FileEncryptionUi};
use crate::hashing::HashAlgorithm;
use crate::notice::WindowMsg;
use crate::secret::SecretError;
use crate::text_hashing::TextHashingUi;
use ncrypt_me::Argon2;
use vstd::prelude::*;

verus! {

/// Room, in bytes, that each secret field starts with.
pub const SECRET_CAPACITY: usize = 1024;

/// Everything a frame draws and a worker reports into.
pub struct GUI {
    pub file_encryption: FileEncryptionUi,
    pub text_hashing: TextHashingUi,
    pub argon2: Argon2,
    pub msg_window: WindowMsg,
}

/// At most one of the two panels is open.
pub open spec fn panels_exclusive(g: GUI) -> bool {
    !(g.file_encryption.open && g.text_hashing.open)
}

/// No secret that the state holds is left.
pub open spec fn secrets_erased(g: GUI) -> bool {
    &&& all_erased(g.file_encryption.credentials)
    &&& g.text_hashing.input_text@ == Seq::<u8>::empty()
    &&& g.text_hashing.input_text.spec_erased()
    &&& g.text_hashing.output_hash@ == Seq::<u8>::empty()
    &&& g.text_hashing.output_hash.spec_erased()
}

/// `a` and `b` agree on all but the secrets: the open panels, the path, the
/// algorithm, the Argon2 parameters and the notice.
pub open spec fn same_but_secrets(a: GUI, b: GUI) -> bool {
    &&& a.file_encryption.open == b.file_encryption.open
    &&& a.text_hashing.open == b.text_hashing.open
    &&& a.file_encryption.file_path@ == b.file_encryption.file_path@
    &&& a.text_hashing.algorithm == b.text_hashing.algorithm
    &&& a.argon2 == b.argon2
    &&& a.msg_window == b.msg_window
}

impl GUI {
    /// The state at start: the file encryption panel open, the notice closed, every
    /// secret empty.
    pub fn new() -> (r: Result<GUI, SecretError>)
        ensures
            r matches Ok(g) ==> {
                &&& panels_exclusive(g)
                &&& g.file_encryption.open
                &&& !g.text_hashing.open
                &&& g.text_hashing.algorithm == HashAlgorithm::Sha3_224
                &&& !g.msg_window.open
                &&& !g.msg_window.loading
                &&& g.msg_window.title@ == Seq::<char>::empty()
                &&& g.msg_window.message@ == Seq::<char>::empty()
                &&& g.file_encryption.file_path@ == Seq::<char>::empty()
                &&& g.file_encryption.credentials@ == (
                    Seq::<u8>::empty(),
                    Seq::<u8>::empty(),
                    Seq::<u8>::empty(),
                )
                &&& g.text_hashing.input_text@ == Seq::<u8>::empty()
                &&& g.text_hashing.output_hash@ == Seq::<u8>::empty()
            },
    {
        let file_encryption = FileEncryptionUi::new(SECRET_CAPACITY)?;
        let text_hashing = TextHashingUi::new(SECRET_CAPACITY)?;
        Ok(GUI {
            file_encryption,
            text_hashing,
            argon2: balanced_argon2(),
            msg_window: WindowMsg::default(),
        })
    }

    /// Opens the file encryption panel and closes the other.
    pub fn show_file_encryption(&mut self)
        ensures
            final(self).file_encryption.open,
            !final(self).text_hashing.open,
            panels_exclusive(*final(self)),
            final(self).file_encryption.credentials@ == old(self).file_encryption.credentials@,
            final(self).file_encryption.file_path@ == old(self).file_encryption.file_path@,
            final(self).text_hashing.input_text@ == old(self).text_hashing.input_text@,
            final(self).text_hashing.output_hash@ == old(self).text_hashing.output_hash@,
            final(self).text_hashing.algorithm == old(self).text_hashing.algorithm,
            final(self).argon2 == old(self).argon2,
            final(self).msg_window == old(self).msg_window,
    {
        self.file_encryption.open = true;
        self.text_hashing.open = false;
    }

    /// Opens the text hashing panel and closes the other.
    pub fn show_text_hashing(&mut self)
        ensures
            !final(self).file_encryption.open,
            final(self).text_hashing.open,
            panels_exclusive(*final(self)),
            final(self).file_encryption.credentials@ == old(self).file_encryption.credentials@,
            final(self).file_encryption.file_path@ == old(self).file_encryption.file_path@,
            final(self).text_hashing.input_text@ == old(self).text_hashing.input_text@,
            final(self).text_hashing.output_hash@ == old(self).text_hashing.output_hash@,
            final(self).text_hashing.algorithm == old(self).text_hashing.algorithm,
            final(self).argon2 == old(self).argon2,
            final(self).msg_window == old(self).msg_window,
    {
        self.file_encryption.open = false;
        self.text_hashing.open = true;
    }

    /// Erases every secret that the state holds: the credentials, then the text input
    /// and its hash. Copies that running workers took along are theirs to drop.
    pub fn erase_secrets(&mut self)
        ensures
            secrets_erased(*final(self)),
            same_but_secrets(*old(self), *final(self)),
    {
        self.file_encryption.credentials.erase();
        self.text_hashing.input_text.erase();
        self.text_hashing.output_hash.erase();
    }
}

/// The application around the shared state.
pub struct NCryptApp {
    pub on_startup: bool,
}

impl NCryptApp {
    /// An application that has not drawn its first frame.
    pub fn new() -> (r: NCryptApp)
        ensures
            r.on_startup,
    {
        NCryptApp { on_startup: true }
    }

    /// Whether this is the first frame; from then on it is not.
    pub fn take_startup(&mut self) -> (r: bool)
        ensures
            r == old(self).on_startup,
            !final(self).on_startup,
    {
        let r = self.on_startup;
        self.on_startup = false;
        r
    }

    /// On the signal that the window closes, erases every secret of `gui`; otherwise
    /// leaves it as it is.
    pub fn on_shutdown(&self, close_requested: bool, gui: &mut GUI)
        ensures
            close_requested ==> secrets_erased(*final(gui)),
            close_requested ==> same_but_secrets(*old(gui), *final(gui)),
            !close_requested ==> *final(gui) == *old(gui),
    {
        if close_requested {
            gui.erase_secrets();
        }
    }
}

} // verus!
