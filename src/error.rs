use vstd::prelude::*;
use vstd::string::StringExecFns;

verus! {

/// The kinds of failure a pipeline run can end in, without their details.
#[derive(Debug, Clone, Copy, PartialEq, Eq, Structural)]
pub enum ErrorKind {
    FileNotFound,
    InvalidPath,
    EncryptionError,
    DecryptionFailed,
    CorruptedFile,
    CompressionError,
    ArchiveError,
    IOError,
}

/// Every failure surfaced to the caller of the vault.
#[derive(Debug, Clone, PartialEq, Eq)]
pub enum VaultError {
    /// The target does not exist; holds the cleaned path.
    FileNotFound(String),
    /// The target has no base name (a root path, for instance).
    InvalidPath,
    /// Key derivation or cipher setup failed.
    EncryptionError(String),
    /// Authentication failed: a wrong passphrase and tampering look alike.
    DecryptionFailed,
    /// The container is shorter than its fixed header.
    CorruptedFile,
    /// The compressed stream could not be produced or read back.
    CompressionError(String),
    /// Packing or unpacking the archive failed.
    ArchiveError(String),
    /// A filesystem operation failed.
    IOError(String),
}

pub open spec fn kind_of(e: &VaultError) -> ErrorKind {
    match e {
        VaultError::FileNotFound(_) => ErrorKind::FileNotFound,
        VaultError::InvalidPath => ErrorKind::InvalidPath,
        VaultError::EncryptionError(_) => ErrorKind::EncryptionError,
        VaultError::DecryptionFailed => ErrorKind::DecryptionFailed,
        VaultError::CorruptedFile => ErrorKind::CorruptedFile,
        VaultError::CompressionError(_) => ErrorKind::CompressionError,
        VaultError::ArchiveError(_) => ErrorKind::ArchiveError,
        VaultError::IOError(_) => ErrorKind::IOError,
    }
}

/// The text shown for an error: a fixed prefix per kind, then its detail.
pub open spec fn message_of(e: &VaultError) -> Seq<char> {
    match e {
        VaultError::FileNotFound(p) => "File not found: "@ + p@,
        VaultError::InvalidPath => "Invalid path"@,
        VaultError::EncryptionError(d) => "Encryption error: "@ + d@,
        VaultError::DecryptionFailed => "Decryption failed (Wrong key?)"@,
        VaultError::CorruptedFile => "File corrupted or wrong key"@,
        VaultError::CompressionError(d) => "Compression error: "@ + d@,
        VaultError::ArchiveError(d) => "Archive error: "@ + d@,
        VaultError::IOError(d) => "IO Error: "@ + d@,
    }
}

impl VaultError {
    pub fn kind(&self) -> (k: ErrorKind)
        ensures
            k == kind_of(self),
    {
        match self {
            VaultError::FileNotFound(_) => ErrorKind::FileNotFound,
            VaultError::InvalidPath => ErrorKind::InvalidPath,
            VaultError::EncryptionError(_) => ErrorKind::EncryptionError,
            VaultError::DecryptionFailed => ErrorKind::DecryptionFailed,
            VaultError::CorruptedFile => ErrorKind::CorruptedFile,
            VaultError::CompressionError(_) => ErrorKind::CompressionError,
            VaultError::ArchiveError(_) => ErrorKind::ArchiveError,
            VaultError::IOError(_) => ErrorKind::IOError,
        }
    }

    /// The human-readable form of the error.
    pub fn message(&self) -> (m: String)
        ensures
            m@ == message_of(self),
    {
        match self {
            VaultError::FileNotFound(p) => String::from_str("File not found: ").concat(p.as_str()),
            VaultError::InvalidPath => String::from_str("Invalid path"),
            VaultError::EncryptionError(d) => String::from_str("Encryption error: ").concat(
                d.as_str(),
            ),
            VaultError::DecryptionFailed => String::from_str("Decryption failed (Wrong key?)"),
            VaultError::CorruptedFile => String::from_str("File corrupted or wrong key"),
            VaultError::CompressionError(d) => String::from_str("Compression error: ").concat(
                d.as_str(),
            ),
            VaultError::ArchiveError(d) => String::from_str("Archive error: ").concat(d.as_str()),
            VaultError::IOError(d) => String::from_str("IO Error: ").concat(d.as_str()),
        }
    }
}

} // verus!
