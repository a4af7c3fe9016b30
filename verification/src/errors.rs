use vstd::prelude::*;

verus! {

/// The errors the explorer surfaces to its user.
///
/// Filesystem and crypto failures from commands and from background tasks
/// are captured into the state's `last_error` and rendered; none of them
/// terminates the run loop.
#[derive(Clone, Copy, PartialEq, Eq, Structural, Debug)]
pub enum ExplorerError {
    /// A path that no longer exists was named.
    NotFound,
    /// The filesystem refused access.
    PermissionDenied,
    /// The operation does not apply to the selected entry's kind
    /// (encrypting a directory, decrypting a file without the
    /// encrypted-name suffix).
    WrongEntryType,
    /// Authenticated decryption failed: wrong key, or tampered ciphertext.
    CryptoFailure,
    /// A finished background task could not wake the render loop.
    /// Non-fatal: the state is already updated, only the redraw is late.
    RefreshSignalFailure,
}

/// The one-line notices a completed background task posts.
#[derive(Clone, Copy, PartialEq, Eq, Structural, Debug)]
pub enum StatusMessage {
    EncryptionCompleted,
    DecryptionCompleted,
    /// A crypto request was rejected because its target file already has
    /// a task in flight.
    OperationPending,
}

} // verus!
