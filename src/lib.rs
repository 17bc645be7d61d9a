//! Secret handling, notifications and worker decisions of a desktop tool that
//! encrypts files and hashes text.

pub mod credentials;
pub mod file_encryption;
pub mod gui;
pub mod hashing;
pub mod notice;
pub mod paths;
pub mod secret;
pub mod text_hashing;
