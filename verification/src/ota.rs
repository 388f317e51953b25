//! Firmware update over the air: the part that decides.
//!
//! The host sets the expected SHA-256 digest, begins an update, streams the
//! image and commits. This module keeps the per-connection state, hashes the
//! image as it arrives and decides whether the image may be made bootable.
//! It never touches flash: the caller owns the flash writer and is told when
//! to create, feed, complete or abandon it.

use vstd::prelude::*;

verus! {

/// Control command: begin an update.
pub const OTA_CMD_BEGIN: u8 = 0x01;

/// Control command: verify the image and make it bootable.
pub const OTA_CMD_COMMIT: u8 = 0x02;

/// Control command: abandon the update.
pub const OTA_CMD_ABORT: u8 = 0x03;

/// Status: no update is running.
pub const OTA_STATUS_IDLE: u8 = 0x00;

/// Status: an image is being received.
pub const OTA_STATUS_IN_PROGRESS: u8 = 0x01;

/// Status: the image was verified and made bootable.
pub const OTA_STATUS_SUCCESS: u8 = 0x02;

/// Status: the update failed.
pub const OTA_STATUS_ERROR: u8 = 0x03;

/// Length of a SHA-256 digest in bytes.
pub const DIGEST_BYTES: usize = 32;

/// Why a step of the update was refused.
#[derive(Clone, Copy, Debug, PartialEq, Eq, Structural)]
pub enum OtaError {
    /// Begin while an image is being received.
    AlreadyInProgress,
    /// Begin or commit before the expected digest was set.
    HashNotSet,
    /// The flash writer could not be created.
    UpdaterCreationFailed,
    /// Data or commit while no image is being received.
    NotStarted,
    /// The flash writer refused a chunk.
    WriteFailed,
    /// The digest of the received image is not the expected one.
    HashMismatch,
    /// The flash writer could not make the image bootable.
    CompleteFailed,
}

impl OtaError {
    /// A short description for the log.
    pub fn message(&self) -> (text: &'static str)
        ensures
            text@ == match *self {
                OtaError::AlreadyInProgress => "OTA already in progress"@,
                OtaError::HashNotSet => "Expected hash not set"@,
                OtaError::UpdaterCreationFailed => "Failed to create OtaUpdater"@,
                OtaError::NotStarted => "OTA not started"@,
                OtaError::WriteFailed => "Failed to write OTA data"@,
                OtaError::HashMismatch => "Hash validation failed"@,
                OtaError::CompleteFailed => "Failed to complete OTA update"@,
            },
    {
        match self {
            OtaError::AlreadyInProgress => "OTA already in progress",
            OtaError::HashNotSet => "Expected hash not set",
            OtaError::UpdaterCreationFailed => "Failed to create OtaUpdater",
            OtaError::NotStarted => "OTA not started",
            OtaError::WriteFailed => "Failed to write OTA data",
            OtaError::HashMismatch => "Hash validation failed",
            OtaError::CompleteFailed => "Failed to complete OTA update",
        }
    }
}

/// An incremental SHA-256 computation: a `sha2::Sha256`, which is known
/// only by the bytes it was fed.
#[verifier::external_body]
pub struct ImageHasher {
    inner: sha2::Sha256,
}

/// The bytes that were fed to a hasher so far, in order.
pub uninterp spec fn hashed_bytes(h: ImageHasher) -> Seq<u8>;

/// The SHA-256 digest of a message.
pub uninterp spec fn sha256(message: Seq<u8>) -> Seq<u8>;

/// `sha2::Sha256::new` (through `Digest`): a hasher that was fed nothing yet.
#[verifier::external_body]
fn hasher_new() -> (h: ImageHasher)
    ensures
        hashed_bytes(h) == Seq::<u8>::empty(),
{
    ImageHasher { inner: <sha2::Sha256 as sha2::Digest>::new() }
}

/// `Digest::update`: feeds `data` to the hasher, behind what it was fed before.
#[verifier::external_body]
fn hasher_update(h: &mut ImageHasher, data: &[u8])
    ensures
        hashed_bytes(*final(h)) == hashed_bytes(*old(h)) + data@,
{
    sha2::Digest::update(&mut h.inner, data)
}

/// `Digest::finalize`: the 32-byte SHA-256 digest of everything the hasher was fed.
#[verifier::external_body]
fn hasher_finalize(h: ImageHasher) -> (digest: [u8; 32])
    ensures
        digest@ == sha256(hashed_bytes(h)),
{
    sha2::Digest::finalize(h.inner).into()
}

/// The SHA-256 digest of `data`.
pub fn sha256_digest(data: &[u8]) -> (digest: [u8; 32])
    ensures
        digest@ == sha256(data@),
{
    let mut h = hasher_new();
    hasher_update(&mut h, data);
    assert(hashed_bytes(h) =~= data@);
    hasher_finalize(h)
}

/// Whether two digests are the same.
pub fn digests_match(a: &[u8; 32], b: &[u8; 32]) -> (same: bool)
    ensures
        same == (a@ == b@),
{
    let mut i: usize = 0;
    while i < 32
        invariant
            i <= 32,
            forall|j: int| 0 <= j < i ==> a@[j] == b@[j],
        decreases 32 - i,
    {
        if a[i] != b[i] {
            return false;
        }
        i += 1;
    }
    assert(a@ =~= b@);
    true
}

/// The update state of one connection, as the protocol sees it.
pub struct OtaModel {
    /// The image received so far, while an update is running.
    pub image: Option<Seq<u8>>,
    /// The digest that the host expects.
    pub expected_hash: Option<Seq<u8>>,
    /// Number of image bytes received, for the log.
    pub bytes_received: nat,
}

impl OtaModel {
    /// The state of a fresh connection.
    pub open spec fn idle() -> Self {
        OtaModel { image: None, expected_hash: None, bytes_received: 0 }
    }

    /// An image is being received.
    pub open spec fn receiving(self) -> bool {
        self.image is Some
    }

    /// With the expected digest set.
    pub open spec fn with_hash(self, hash: Seq<u8>) -> Self {
        OtaModel { expected_hash: Some(hash), ..self }
    }

    /// Whether an update may begin.
    pub open spec fn begin_check(self) -> Result<(), OtaError> {
        if self.receiving() {
            Err(OtaError::AlreadyInProgress)
        } else if self.expected_hash is None {
            Err(OtaError::HashNotSet)
        } else {
            Ok(())
        }
    }

    /// What a begin returns, given whether the flash writer could be created.
    pub open spec fn begin_result(self, updater_created: bool) -> Result<(), OtaError> {
        if self.begin_check() is Err {
            self.begin_check()
        } else if !updater_created {
            Err(OtaError::UpdaterCreationFailed)
        } else {
            Ok(())
        }
    }

    /// The state after a begin: on success an empty image is being received.
    pub open spec fn after_begin(self, updater_created: bool) -> Self {
        if self.begin_result(updater_created) is Ok {
            OtaModel { image: Some(Seq::<u8>::empty()), bytes_received: 0, ..self }
        } else {
            self
        }
    }

    /// Whether a chunk may be taken.
    pub open spec fn write_check(self) -> Result<(), OtaError> {
        if self.receiving() {
            Ok(())
        } else {
            Err(OtaError::NotStarted)
        }
    }

    /// The state after a chunk: it is appended to the image, and the byte
    /// count grows by its length without passing the largest machine word.
    pub open spec fn after_write(self, data: Seq<u8>) -> Self {
        if self.receiving() {
            OtaModel {
                image: Some(self.image->Some_0 + data),
                bytes_received: if self.bytes_received + data.len() > usize::MAX {
                    usize::MAX as nat
                } else {
                    self.bytes_received + data.len()
                },
                ..self
            }
        } else {
            self
        }
    }

    /// What a commit returns: success exactly when an image is being
    /// received, a digest is expected, and the image has that digest.
    pub open spec fn commit_result(self) -> Result<(), OtaError> {
        if !self.receiving() {
            Err(OtaError::NotStarted)
        } else if self.expected_hash is None {
            Err(OtaError::HashNotSet)
        } else if sha256(self.image->Some_0) != self.expected_hash->Some_0 {
            Err(OtaError::HashMismatch)
        } else {
            Ok(())
        }
    }

    /// The state after a commit: whatever the verdict, the image is let go.
    pub open spec fn after_commit(self) -> Self {
        OtaModel { image: None, ..self }
    }

    /// The state after an abort: nothing is kept.
    pub open spec fn after_abort(self) -> Self {
        Self::idle()
    }
}

/// The update state of one connection.
pub struct OtaState {
    bytes_received: usize,
    expected_hash: Option<[u8; 32]>,
    hasher: Option<ImageHasher>,
}

impl View for OtaState {
    type V = OtaModel;

    closed spec fn view(&self) -> OtaModel {
        OtaModel {
            image: match self.hasher {
                Some(h) => Some(hashed_bytes(h)),
                None => None,
            },
            expected_hash: match self.expected_hash {
                Some(h) => Some(h@),
                None => None,
            },
            bytes_received: self.bytes_received as nat,
        }
    }
}

impl OtaState {
    /// The state of a fresh connection: no update, no expected digest.
    pub fn new() -> (s: Self)
        ensures
            s@ == OtaModel::idle(),
    {
        OtaState { bytes_received: 0, expected_hash: None, hasher: None }
    }

    /// Whether an image is being received.
    pub fn is_receiving(&self) -> (r: bool)
        ensures
            r == self@.receiving(),
    {
        self.hasher.is_some()
    }

    /// Number of image bytes received since the update began.
    pub fn bytes_received(&self) -> (n: usize)
        ensures
            n == self@.bytes_received,
    {
        self.bytes_received
    }

    /// The digest that the host expects, if it set one.
    pub fn expected_hash(&self) -> (h: Option<[u8; 32]>)
        ensures
            h is Some == self@.expected_hash is Some,
            h matches Some(d) ==> d@ == self@.expected_hash->Some_0,
    {
        self.expected_hash
    }

    /// Stores the digest that the host expects.
    pub fn set_expected_hash(&mut self, hash: [u8; 32])
        ensures
            final(self)@ == old(self)@.with_hash(hash@),
    {
        self.expected_hash = Some(hash);
    }

    /// Decides whether an update may begin, before the flash writer is created.
    pub fn begin_check(&self) -> (r: Result<(), OtaError>)
        ensures
            r == self@.begin_check(),
    {
        if self.hasher.is_some() {
            Err(OtaError::AlreadyInProgress)
        } else if self.expected_hash.is_none() {
            Err(OtaError::HashNotSet)
        } else {
            Ok(())
        }
    }

    /// Begins an update. `updater_created` tells whether the flash writer
    /// could be created; it is looked at only when `begin_check` passes.
    pub fn begin_ota(&mut self, updater_created: bool) -> (r: Result<(), OtaError>)
        ensures
            r == old(self)@.begin_result(updater_created),
            final(self)@ == old(self)@.after_begin(updater_created),
    {
        if self.hasher.is_some() {
            return Err(OtaError::AlreadyInProgress);
        }
        if self.expected_hash.is_none() {
            return Err(OtaError::HashNotSet);
        }
        if !updater_created {
            return Err(OtaError::UpdaterCreationFailed);
        }
        self.bytes_received = 0;
        self.hasher = Some(hasher_new());
        Ok(())
    }

    /// Takes one chunk of the image into the digest and the byte count.
    pub fn write_ota_data(&mut self, data: &[u8]) -> (r: Result<(), OtaError>)
        ensures
            r == old(self)@.write_check(),
            final(self)@ == old(self)@.after_write(data@),
    {
        match self.hasher.take() {
            None => Err(OtaError::NotStarted),
            Some(mut h) => {
                hasher_update(&mut h, data);
                self.hasher = Some(h);
                self.bytes_received = if data.len() > usize::MAX - self.bytes_received {
                    usize::MAX
                } else {
                    self.bytes_received + data.len()
                };
                Ok(())
            },
        }
    }

    /// Ends the update and says whether the image may be made bootable:
    /// only when its SHA-256 digest is the expected one.
    pub fn commit_ota(&mut self) -> (r: Result<(), OtaError>)
        ensures
            r == old(self)@.commit_result(),
            final(self)@ == if old(self)@.receiving() {
                old(self)@.after_commit()
            } else {
                old(self)@
            },
    {
        let hasher = match self.hasher.take() {
            Some(h) => h,
            None => {
                return Err(OtaError::NotStarted);
            },
        };
        let expected = match self.expected_hash {
            Some(h) => h,
            None => {
                return Err(OtaError::HashNotSet);
            },
        };
        let actual = hasher_finalize(hasher);
        if !digests_match(&actual, &expected) {
            return Err(OtaError::HashMismatch);
        }
        Ok(())
    }

    /// Abandons the update and forgets the expected digest. Returns whether
    /// an image was being received, so that the flash writer is abandoned too.
    pub fn abort_ota(&mut self) -> (was_receiving: bool)
        ensures
            was_receiving == old(self)@.receiving(),
            final(self)@ == old(self)@.after_abort(),
    {
        let was_receiving = self.hasher.is_some();
        self.hasher = None;
        self.bytes_received = 0;
        self.expected_hash = None;
        was_receiving
    }
}

} // verus!
