//! Error kinds of the credential/key lifecycle manager, as the overlay's
//! surroundings can surface them.
//!
//! Errors raised by outside subsystems (I/O, serialization, platform
//! keyrings) are carried here as their rendered message, so every kind is a
//! plain value.  `describe` names the kind in words; `render` replaces a
//! `Display` implementation: the kind's words, and for kinds that carry an
//! inner error's text, that text appended after a separating ": ".

use vstd::prelude::*;
use vstd::string::StringExecFns;

verus! {

/// Every error the credential manager and its crypto primitives can give.
#[derive(Debug)]
pub enum Error {
    /// Password hashing failed.
    PasswordHash,
    /// Encrypting a value failed.
    Encrypt,
    /// Decrypting a value failed.
    Decrypt,
    /// A nonce had the wrong length.
    NonceLengthMismatch,
    /// Stream encryption or decryption could not be initialised.
    StreamModeInit,
    /// No keyslots are available.
    NoKeyslots,
    /// Too many keyslots were added to a header.
    TooManyKeyslots,
    /// No header objects are available, or none match.
    NoObjects,
    /// An object operation would duplicate objects.
    DuplicateObjects,
    /// Too many objects were added to a header.
    TooManyObjects,
    /// A binary encoder failed; the rendered message is carried along.
    BincodeEncode(String),
    /// A binary decoder failed; the rendered message is carried along.
    BincodeDecode(String),
    /// The requested key is not in the key manager.
    KeyNotFound,
    /// The key is already mounted.
    KeyAlreadyMounted,
    /// The key is not mounted.
    KeyNotMounted,
    /// The key is not in the queue.
    KeyNotQueued,
    /// The key is already in the queue.
    KeyAlreadyQueued,
    /// No default key has been set.
    NoDefaultKeySet,
    /// The key manager is not unlocked.
    NotUnlocked,
    /// There is no verification key.
    NoVerificationKey,
    /// The key is not flagged as memory-only.
    KeyNotMemoryOnly,
    /// An I/O error; the rendered message is carried along.
    Io(String),
    /// Converting a vector to an array met the wrong data length.
    VecArrSizeMismatch,
    /// Incorrect password or details were provided.
    IncorrectPassword,
    /// Serializing or deserializing an item failed.
    Serialization,
    /// Parsing bytes as a string failed; the rendered message is carried.
    StringParse(String),
    /// The linux keyring failed; the rendered message is carried along.
    LinuxKeyringError(String),
    /// The apple keyring failed; the rendered message is carried along.
    AppleKeyringError(String),
    /// A keyring failed in no platform-specific way.
    KeyringError,
    /// No keyring is available on this platform.
    KeyringNotSupported,
}

/// The words that name each error kind.
pub open spec fn spec_describe(e: Error) -> Seq<char> {
    match e {
        Error::PasswordHash => "there was an error while password hashing"@,
        Error::Encrypt => "error while encrypting"@,
        Error::Decrypt => "error while decrypting"@,
        Error::NonceLengthMismatch => "nonce length mismatch"@,
        Error::StreamModeInit => "error initialising stream encryption/decryption"@,
        Error::NoKeyslots => "no keyslots available"@,
        Error::TooManyKeyslots => "tried adding too many keyslots to a header"@,
        Error::NoObjects => "no header objects available (or none that match)"@,
        Error::DuplicateObjects => "tried to run an object operation which resulted in duplicates"@,
        Error::TooManyObjects => "tried adding too many objects to a header"@,
        Error::BincodeEncode(_) => "error while encoding with bincode"@,
        Error::BincodeDecode(_) => "error while decoding with bincode"@,
        Error::KeyNotFound => "requested key wasn't found in the key manager"@,
        Error::KeyAlreadyMounted => "key is already mounted"@,
        Error::KeyNotMounted => "key not mounted"@,
        Error::KeyNotQueued => "key isn't in the queue"@,
        Error::KeyAlreadyQueued => "key is already in the queue"@,
        Error::NoDefaultKeySet => "no default key has been set"@,
        Error::NotUnlocked => "keymanager is not unlocked"@,
        Error::NoVerificationKey => "no verification key"@,
        Error::KeyNotMemoryOnly => "key isn't flagged as memory only"@,
        Error::Io(_) => "I/O error"@,
        Error::VecArrSizeMismatch => "mismatched data length while converting vec to array"@,
        Error::IncorrectPassword => "incorrect password/details were provided"@,
        Error::Serialization => "error while serializing/deserializing an item"@,
        Error::StringParse(_) => "string parse error"@,
        Error::LinuxKeyringError(_) => "error with the linux keyring"@,
        Error::AppleKeyringError(_) => "error with the apple keyring"@,
        Error::KeyringError => "generic keyring error"@,
        Error::KeyringNotSupported => "keyring not available on this platform"@,
    }
}

/// The full message an error shows: the kind's words, and for the kinds
/// that carry an inner error's text, that text after a separating ": ".
pub open spec fn spec_render(e: Error) -> Seq<char> {
    match e {
        Error::BincodeEncode(s) => spec_describe(e) + ": "@ + s@,
        Error::BincodeDecode(s) => spec_describe(e) + ": "@ + s@,
        Error::Io(s) => spec_describe(e) + ": "@ + s@,
        Error::LinuxKeyringError(s) => spec_describe(e) + ": "@ + s@,
        Error::AppleKeyringError(s) => spec_describe(e) + ": "@ + s@,
        _ => spec_describe(e),
    }
}

impl Error {
    /// Name this error kind in words.
    pub fn describe(&self) -> (m: &'static str)
        ensures
            m@ == spec_describe(*self),
    {
        match self {
            Error::PasswordHash => "there was an error while password hashing",
            Error::Encrypt => "error while encrypting",
            Error::Decrypt => "error while decrypting",
            Error::NonceLengthMismatch => "nonce length mismatch",
            Error::StreamModeInit => "error initialising stream encryption/decryption",
            Error::NoKeyslots => "no keyslots available",
            Error::TooManyKeyslots => "tried adding too many keyslots to a header",
            Error::NoObjects => "no header objects available (or none that match)",
            Error::DuplicateObjects => "tried to run an object operation which resulted in duplicates",
            Error::TooManyObjects => "tried adding too many objects to a header",
            Error::BincodeEncode(_) => "error while encoding with bincode",
            Error::BincodeDecode(_) => "error while decoding with bincode",
            Error::KeyNotFound => "requested key wasn't found in the key manager",
            Error::KeyAlreadyMounted => "key is already mounted",
            Error::KeyNotMounted => "key not mounted",
            Error::KeyNotQueued => "key isn't in the queue",
            Error::KeyAlreadyQueued => "key is already in the queue",
            Error::NoDefaultKeySet => "no default key has been set",
            Error::NotUnlocked => "keymanager is not unlocked",
            Error::NoVerificationKey => "no verification key",
            Error::KeyNotMemoryOnly => "key isn't flagged as memory only",
            Error::Io(_) => "I/O error",
            Error::VecArrSizeMismatch => "mismatched data length while converting vec to array",
            Error::IncorrectPassword => "incorrect password/details were provided",
            Error::Serialization => "error while serializing/deserializing an item",
            Error::StringParse(_) => "string parse error",
            Error::LinuxKeyringError(_) => "error with the linux keyring",
            Error::AppleKeyringError(_) => "error with the apple keyring",
            Error::KeyringError => "generic keyring error",
            Error::KeyringNotSupported => "keyring not available on this platform",
        }
    }

    /// Render the full message: the kind's words, and for kinds carrying an
    /// inner error's text, that text after a separating ": ".
    pub fn render(&self) -> (m: String)
        ensures
            m@ == spec_render(*self),
    {
        let kind = self.describe();
        let carried: Option<&String> = match self {
            Error::BincodeEncode(s) => Some(s),
            Error::BincodeDecode(s) => Some(s),
            Error::Io(s) => Some(s),
            Error::LinuxKeyringError(s) => Some(s),
            Error::AppleKeyringError(s) => Some(s),
            _ => None,
        };
        match carried {
            Some(s) => {
                let mut m = kind.to_owned();
                m.append(": ");
                m.append(s.as_str());
                m
            },
            None => kind.to_owned(),
        }
    }
}

} // verus!
