//! The GATT server's reaction to what a connected central does.
//!
//! The server exposes a configuration service (version, data) and an update
//! service (control, hash, data, status). This module holds the values of
//! the characteristics and the update state, and decides for every event
//! how the values change and what the caller has to do: answer the request,
//! hand a new configuration to the renderer, operate the flash writer, or
//! restart into the new image.
//!
//! Flash operations take place outside. Where a write needs one, the
//! reaction defers the answer: the caller performs the operation and reports
//! how it went with `flash_done`, which gives the answer.

use vstd::prelude::*;
use vstd::slice::slice_to_vec;
use crate::config::AppConfig;
use crate::config::CONFIG_MAX_BYTES;
use crate::config::CONFIG_VERSION;
use crate::ota::OtaModel;
use crate::ota::OtaState;
use crate::ota::OTA_CMD_ABORT;
use crate::ota::OTA_CMD_BEGIN;
use crate::ota::OTA_CMD_COMMIT;
use crate::ota::OTA_STATUS_ERROR;
use crate::ota::OTA_STATUS_IDLE;
use crate::ota::OTA_STATUS_IN_PROGRESS;
use crate::ota::OTA_STATUS_SUCCESS;
use crate::wire::parse_config;
use crate::wire::config_bytes;
use crate::wire::ConfigError;

verus! {

/// Largest number of simultaneous connections.
pub const CONNECTIONS_MAX: usize = 1;

/// Largest number of L2CAP channels: signalling and attribute protocol.
pub const L2CAP_CHANNELS_MAX: usize = 2;

/// Milliseconds to wait between answering a commit and restarting, so that
/// the central still receives the answer.
pub const RESET_DELAY_MS: u64 = 100;

/// The characteristics of the two services.
#[derive(Clone, Copy, Debug, PartialEq, Eq, Structural)]
pub enum Characteristic {
    ConfigVersion,
    ConfigData,
    OtaControl,
    OtaHash,
    OtaData,
    OtaStatus,
}

/// The attribute protocol errors that a write can be rejected with.
#[derive(Clone, Copy, Debug, PartialEq, Eq, Structural)]
pub enum AttError {
    ValueNotAllowed,
    InvalidAttributeValueLength,
    UnlikelyError,
}

impl AttError {
    /// The error code on the wire.
    pub fn code(&self) -> (c: u8)
        ensures
            c == match *self {
                AttError::ValueNotAllowed => 0x13u8,
                AttError::InvalidAttributeValueLength => 0x0Du8,
                AttError::UnlikelyError => 0x0Eu8,
            },
    {
        match self {
            AttError::ValueNotAllowed => 0x13,
            AttError::InvalidAttributeValueLength => 0x0D,
            AttError::UnlikelyError => 0x0E,
        }
    }
}

/// A flash operation that the caller performs on behalf of a write.
#[derive(Clone, Copy, Debug, PartialEq, Eq, Structural)]
pub enum FlashRequest {
    /// Create the flash writer for the partition that is not booted.
    CreateUpdater,
    /// Hand the bytes of the write to the flash writer.
    WriteChunk,
    /// Mark the written partition bootable.
    CompleteUpdate,
}

/// How a request is answered.
#[derive(Clone, Copy, Debug, PartialEq, Eq, Structural)]
pub enum Reply {
    /// Accept the request.
    Accept,
    /// Reject the request with the error.
    Reject(AttError),
    /// Perform the flash operation and report with `flash_done`, which
    /// gives the answer.
    Defer(FlashRequest),
    /// There is nothing to answer.
    Nothing,
}

/// What the caller has to do after an event.
#[derive(Clone, Copy, Debug, PartialEq, Eq)]
pub struct Reaction {
    pub reply: Reply,
    /// Abandon the flash writer, if there is one.
    pub abort_updater: bool,
    /// Hand this configuration to the renderer.
    pub new_config: Option<AppConfig>,
    /// The status changed to this value: notify the central.
    pub notify_status: Option<u8>,
    /// Restart into the new image, `RESET_DELAY_MS` after answering.
    pub reset: bool,
}

impl Reaction {
    /// A reaction that only answers.
    pub open spec fn only(reply: Reply) -> Self {
        Reaction {
            reply,
            abort_updater: false,
            new_config: None,
            notify_status: None,
            reset: false,
        }
    }
}

/// The values of the characteristics and the state of the connection.
pub struct ServerModel {
    pub config_data: Seq<u8>,
    pub ota_control: u8,
    pub ota_hash: Seq<u8>,
    pub ota_status: u8,
    pub ota: OtaModel,
    /// The flash operation whose outcome is awaited.
    pub pending: Option<FlashRequest>,
}

/// The notification that goes with a change of status, if it changed.
pub open spec fn status_change(before: u8, after: u8) -> Option<u8> {
    if before == after {
        None
    } else {
        Some(after)
    }
}

impl ServerModel {
    /// With the status set.
    pub open spec fn with_status(self, status: u8) -> Self {
        ServerModel { ota_status: status, ..self }
    }

    /// The document that a write to the configuration data brings, if it is
    /// acceptable: the bytes can be read as a document, they fit the
    /// attribute, and the document is valid.
    pub open spec fn acceptable_config(data: Seq<u8>) -> Option<AppConfig> {
        match parse_config(data) {
            Err(_) => None,
            Ok(c) => if data.len() <= CONFIG_MAX_BYTES && c.valid() {
                Some(c)
            } else {
                None
            },
        }
    }

    /// The state after a write to the configuration data: an acceptable
    /// write becomes the value of the characteristic, any other changes nothing.
    pub open spec fn after_config_write(self, data: Seq<u8>) -> Self {
        if Self::acceptable_config(data) is Some {
            ServerModel { config_data: data, ..self }
        } else {
            self
        }
    }

    /// The reaction to a write to the configuration data: an acceptable
    /// document is handed to the renderer; every other write is rejected
    /// for its value, and nothing is handed on.
    pub open spec fn config_write_reaction(self, data: Seq<u8>) -> Reaction {
        match Self::acceptable_config(data) {
            Some(c) => Reaction { new_config: Some(c), ..Reaction::only(Reply::Accept) },
            None => Reaction::only(Reply::Reject(AttError::ValueNotAllowed)),
        }
    }

    /// The state after a write to the expected digest.
    pub open spec fn after_hash_write(self, data: Seq<u8>) -> Self {
        if data.len() == 32 {
            ServerModel { ota_hash: data, ota: self.ota.with_hash(data), ..self }
        } else {
            self
        }
    }

    /// The reaction to a write to the expected digest: 32 bytes are stored.
    pub open spec fn hash_write_reaction(self, data: Seq<u8>) -> Reaction {
        if data.len() == 32 {
            Reaction::only(Reply::Accept)
        } else {
            Reaction::only(Reply::Reject(AttError::InvalidAttributeValueLength))
        }
    }

    /// The state after a begin command. A begin without an expected digest
    /// changes nothing; a begin during an update sets the error status.
    pub open spec fn after_begin_command(self) -> Self {
        match self.ota.begin_check() {
            Ok(_) => ServerModel { pending: Some(FlashRequest::CreateUpdater), ..self },
            Err(e) => if e == crate::ota::OtaError::HashNotSet {
                self
            } else {
                self.with_status(OTA_STATUS_ERROR)
            },
        }
    }

    /// The reaction to a begin command.
    pub open spec fn begin_command_reaction(self) -> Reaction {
        match self.ota.begin_check() {
            Ok(_) => Reaction::only(Reply::Defer(FlashRequest::CreateUpdater)),
            Err(_) => Reaction {
                notify_status: status_change(self.ota_status, self.after_begin_command().ota_status),
                ..Reaction::only(Reply::Reject(AttError::UnlikelyError))
            },
        }
    }

    /// The state after a commit command: the image is let go; a verified
    /// image waits for the flash writer, anything else sets the error status.
    pub open spec fn after_commit_command(self) -> Self {
        let ota = if self.ota.receiving() {
            self.ota.after_commit()
        } else {
            self.ota
        };
        match self.ota.commit_result() {
            Ok(_) => ServerModel { ota, pending: Some(FlashRequest::CompleteUpdate), ..self },
            Err(_) => ServerModel { ota, ota_status: OTA_STATUS_ERROR, ..self },
        }
    }

    /// The reaction to a commit command.
    pub open spec fn commit_command_reaction(self) -> Reaction {
        match self.ota.commit_result() {
            Ok(_) => Reaction::only(Reply::Defer(FlashRequest::CompleteUpdate)),
            Err(_) => Reaction {
                abort_updater: self.ota.receiving(),
                notify_status: status_change(self.ota_status, OTA_STATUS_ERROR),
                ..Reaction::only(Reply::Reject(AttError::UnlikelyError))
            },
        }
    }

    /// The state after an abort command.
    pub open spec fn after_abort_command(self) -> Self {
        ServerModel {
            ota: self.ota.after_abort(),
            ota_control: OTA_CMD_ABORT,
            ota_status: OTA_STATUS_IDLE,
            ..self
        }
    }

    /// The reaction to an abort command.
    pub open spec fn abort_command_reaction(self) -> Reaction {
        Reaction {
            abort_updater: self.ota.receiving(),
            notify_status: status_change(self.ota_status, OTA_STATUS_IDLE),
            ..Reaction::only(Reply::Accept)
        }
    }

    /// The state after a write to the control characteristic.
    pub open spec fn after_control_write(self, data: Seq<u8>) -> Self {
        if data.len() != 1 {
            self
        } else if data[0] == OTA_CMD_BEGIN {
            self.after_begin_command()
        } else if data[0] == OTA_CMD_COMMIT {
            self.after_commit_command()
        } else if data[0] == OTA_CMD_ABORT {
            self.after_abort_command()
        } else {
            self
        }
    }

    /// The reaction to a write to the control characteristic: one byte that
    /// is a command.
    pub open spec fn control_write_reaction(self, data: Seq<u8>) -> Reaction {
        if data.len() != 1 {
            Reaction::only(Reply::Reject(AttError::InvalidAttributeValueLength))
        } else if data[0] == OTA_CMD_BEGIN {
            self.begin_command_reaction()
        } else if data[0] == OTA_CMD_COMMIT {
            self.commit_command_reaction()
        } else if data[0] == OTA_CMD_ABORT {
            self.abort_command_reaction()
        } else {
            Reaction::only(Reply::Reject(AttError::ValueNotAllowed))
        }
    }

    /// The state after a write of image data: during an update the chunk is
    /// taken and waits for the flash writer; otherwise the update is reset
    /// with the error status.
    pub open spec fn after_data_write(self, data: Seq<u8>) -> Self {
        if self.ota.receiving() {
            ServerModel {
                ota: self.ota.after_write(data),
                pending: Some(FlashRequest::WriteChunk),
                ..self
            }
        } else {
            ServerModel { ota: self.ota.after_abort(), ota_status: OTA_STATUS_ERROR, ..self }
        }
    }

    /// The reaction to a write of image data.
    pub open spec fn data_write_reaction(self, data: Seq<u8>) -> Reaction {
        if self.ota.receiving() {
            Reaction::only(Reply::Defer(FlashRequest::WriteChunk))
        } else {
            Reaction {
                notify_status: status_change(self.ota_status, OTA_STATUS_ERROR),
                ..Reaction::only(Reply::Reject(AttError::UnlikelyError))
            }
        }
    }

    /// The state after a write. While a flash operation is awaited, and for
    /// the characteristics that take no writes, nothing changes.
    pub open spec fn after_write(self, target: Characteristic, data: Seq<u8>) -> Self {
        if self.pending is Some {
            self
        } else {
            match target {
                Characteristic::ConfigData => self.after_config_write(data),
                Characteristic::OtaControl => self.after_control_write(data),
                Characteristic::OtaHash => self.after_hash_write(data),
                Characteristic::OtaData => self.after_data_write(data),
                Characteristic::ConfigVersion => self,
                Characteristic::OtaStatus => self,
            }
        }
    }

    /// The reaction to a write. While a flash operation is awaited every
    /// write is rejected; writes to the characteristics that take none are
    /// accepted and do nothing.
    pub open spec fn write_reaction(self, target: Characteristic, data: Seq<u8>) -> Reaction {
        if self.pending is Some {
            Reaction::only(Reply::Reject(AttError::UnlikelyError))
        } else {
            match target {
                Characteristic::ConfigData => self.config_write_reaction(data),
                Characteristic::OtaControl => self.control_write_reaction(data),
                Characteristic::OtaHash => self.hash_write_reaction(data),
                Characteristic::OtaData => self.data_write_reaction(data),
                Characteristic::ConfigVersion => Reaction::only(Reply::Accept),
                Characteristic::OtaStatus => Reaction::only(Reply::Accept),
            }
        }
    }

    /// The state after the awaited flash operation ended.
    pub open spec fn after_flash(self, ok: bool) -> Self {
        match self.pending {
            None => self,
            Some(FlashRequest::CreateUpdater) => if self.ota.begin_result(ok) is Ok {
                ServerModel {
                    ota: self.ota.after_begin(ok),
                    ota_control: OTA_CMD_BEGIN,
                    ota_status: OTA_STATUS_IN_PROGRESS,
                    pending: None,
                    ..self
                }
            } else {
                ServerModel { ota_status: OTA_STATUS_ERROR, pending: None, ..self }
            },
            Some(FlashRequest::WriteChunk) => if ok {
                ServerModel { pending: None, ..self }
            } else {
                ServerModel {
                    ota: self.ota.after_abort(),
                    ota_status: OTA_STATUS_ERROR,
                    pending: None,
                    ..self
                }
            },
            Some(FlashRequest::CompleteUpdate) => if ok {
                ServerModel {
                    ota_control: OTA_CMD_COMMIT,
                    ota_status: OTA_STATUS_SUCCESS,
                    pending: None,
                    ..self
                }
            } else {
                ServerModel { ota_status: OTA_STATUS_ERROR, pending: None, ..self }
            },
        }
    }

    /// The reaction to the end of the awaited flash operation: the answer to
    /// the write that asked for it. Only a completed update restarts.
    pub open spec fn flash_reaction(self, ok: bool) -> Reaction {
        match self.pending {
            None => Reaction::only(Reply::Nothing),
            Some(request) => {
                let good = if request == FlashRequest::CreateUpdater {
                    self.ota.begin_result(ok) is Ok
                } else {
                    ok
                };
                Reaction {
                    reply: if good {
                        Reply::Accept
                    } else {
                        Reply::Reject(AttError::UnlikelyError)
                    },
                    abort_updater: request == FlashRequest::WriteChunk && !ok,
                    new_config: None,
                    notify_status: status_change(self.ota_status, self.after_flash(ok).ota_status),
                    reset: request == FlashRequest::CompleteUpdate && ok,
                }
            },
        }
    }

    /// The state after the central is gone: the update is abandoned and the
    /// status is idle. The other values stay for the next connection.
    pub open spec fn after_disconnect(self) -> Self {
        ServerModel {
            ota: OtaModel::idle(),
            ota_status: OTA_STATUS_IDLE,
            pending: None,
            ..self
        }
    }

    /// The reaction to a disconnect: a flash writer that is still there is abandoned.
    pub open spec fn disconnect_reaction(self) -> Reaction {
        Reaction {
            abort_updater: self.ota.receiving() || self.pending is Some,
            notify_status: status_change(self.ota_status, OTA_STATUS_IDLE),
            ..Reaction::only(Reply::Nothing)
        }
    }

    /// What a read of the characteristic gives; image data cannot be read.
    pub open spec fn value_of(self, target: Characteristic) -> Option<Seq<u8>> {
        match target {
            Characteristic::ConfigVersion => Some(seq![CONFIG_VERSION as u8, 0u8, 0u8, 0u8]),
            Characteristic::ConfigData => Some(self.config_data),
            Characteristic::OtaControl => Some(seq![self.ota_control]),
            Characteristic::OtaHash => Some(self.ota_hash),
            Characteristic::OtaData => None,
            Characteristic::OtaStatus => Some(seq![self.ota_status]),
        }
    }
}


impl ServerModel {
    /// The server before the first connection, publishing `config_data`.
    pub open spec fn initial(config_data: Seq<u8>) -> Self {
        ServerModel {
            config_data,
            ota_control: 0,
            ota_hash: Seq::<u8>::empty(),
            ota_status: OTA_STATUS_IDLE,
            ota: OtaModel::idle(),
            pending: None,
        }
    }
}

/// The GATT server: the values of its characteristics and the update state
/// of the current connection.
pub struct GattServer {
    config_data: Vec<u8>,
    ota_control: u8,
    ota_hash: Vec<u8>,
    ota_status: u8,
    ota: OtaState,
    pending: Option<FlashRequest>,
}

impl View for GattServer {
    type V = ServerModel;

    closed spec fn view(&self) -> ServerModel {
        ServerModel {
            config_data: self.config_data@,
            ota_control: self.ota_control,
            ota_hash: self.ota_hash@,
            ota_status: self.ota_status,
            ota: self.ota@,
            pending: self.pending,
        }
    }
}

fn digest_from(data: &[u8]) -> (digest: [u8; 32])
    requires
        data.len() == 32,
    ensures
        digest@ == data@,
{
    let mut digest: [u8; 32] = [0; 32];
    let mut i: usize = 0;
    while i < 32
        invariant
            i <= 32,
            data.len() == 32,
            forall|j: int| 0 <= j < i ==> digest@[j] == data@[j],
        decreases 32 - i,
    {
        digest[i] = data[i];
        i += 1;
    }
    assert(digest@ =~= data@);
    digest
}

fn status_notice(before: u8, after: u8) -> (n: Option<u8>)
    ensures
        n == status_change(before, after),
{
    if before == after {
        None
    } else {
        Some(after)
    }
}

fn only(reply: Reply) -> (r: Reaction)
    ensures
        r == Reaction::only(reply),
{
    Reaction { reply, abort_updater: false, new_config: None, notify_status: None, reset: false }
}

impl GattServer {
    /// A server that publishes `initial` as its configuration. Fails with
    /// `BufferFull` when the serialized configuration is longer than 200 bytes.
    pub fn new(initial: &AppConfig) -> (r: Result<Self, ConfigError>)
        ensures
            match r {
                Ok(server) => server@ == ServerModel::initial(config_bytes(*initial))
                    && config_bytes(*initial).len() <= CONFIG_MAX_BYTES,
                Err(e) => e == ConfigError::BufferFull && config_bytes(*initial).len()
                    > CONFIG_MAX_BYTES,
            },
    {
        match initial.to_bytes::<200>() {
            Ok(config_data) => Ok(
                GattServer {
                    config_data,
                    ota_control: 0,
                    ota_hash: Vec::new(),
                    ota_status: OTA_STATUS_IDLE,
                    ota: OtaState::new(),
                    pending: None,
                },
            ),
            Err(e) => Err(e),
        }
    }

    /// The current value of the status characteristic.
    pub fn ota_status(&self) -> (status: u8)
        ensures
            status == self@.ota_status,
    {
        self.ota_status
    }

    /// The flash operation whose outcome is awaited, if any.
    pub fn pending(&self) -> (p: Option<FlashRequest>)
        ensures
            p == self@.pending,
    {
        self.pending
    }

    /// Whether an image is being received.
    pub fn is_receiving(&self) -> (r: bool)
        ensures
            r == self@.ota.receiving(),
    {
        self.ota.is_receiving()
    }

    /// Number of image bytes received since the update began.
    pub fn bytes_received(&self) -> (n: usize)
        ensures
            n == self@.ota.bytes_received,
    {
        self.ota.bytes_received()
    }

    /// The value that a read of `target` gives; `None` for image data,
    /// which cannot be read.
    pub fn read(&self, target: Characteristic) -> (value: Option<Vec<u8>>)
        ensures
            value is Some == self@.value_of(target) is Some,
            value matches Some(v) ==> v@ == self@.value_of(target)->Some_0,
    {
        match target {
            Characteristic::ConfigVersion => {
                let mut v: Vec<u8> = Vec::new();
                v.push(CONFIG_VERSION as u8);
                v.push(0);
                v.push(0);
                v.push(0);
                assert(v@ =~= seq![CONFIG_VERSION as u8, 0u8, 0u8, 0u8]);
                Some(v)
            },
            Characteristic::ConfigData => Some(self.config_data.clone()),
            Characteristic::OtaControl => {
                let mut v: Vec<u8> = Vec::new();
                v.push(self.ota_control);
                assert(v@ =~= seq![self.ota_control]);
                Some(v)
            },
            Characteristic::OtaHash => Some(self.ota_hash.clone()),
            Characteristic::OtaData => None,
            Characteristic::OtaStatus => {
                let mut v: Vec<u8> = Vec::new();
                v.push(self.ota_status);
                assert(v@ =~= seq![self.ota_status]);
                Some(v)
            },
        }
    }

    fn write_config(&mut self, data: &[u8]) -> (r: Reaction)
        requires
            old(self)@.pending is None,
        ensures
            final(self)@ == old(self)@.after_config_write(data@),
            r == old(self)@.config_write_reaction(data@),
    {
        match AppConfig::from_bytes(data) {
            Ok(c) => {
                if data.len() > CONFIG_MAX_BYTES || !c.is_valid() {
                    return only(Reply::Reject(AttError::ValueNotAllowed));
                }
                self.config_data = slice_to_vec(data);
                Reaction {
                    reply: Reply::Accept,
                    abort_updater: false,
                    new_config: Some(c),
                    notify_status: None,
                    reset: false,
                }
            },
            Err(_) => only(Reply::Reject(AttError::ValueNotAllowed)),
        }
    }

    fn write_hash(&mut self, data: &[u8]) -> (r: Reaction)
        requires
            old(self)@.pending is None,
        ensures
            final(self)@ == old(self)@.after_hash_write(data@),
            r == old(self)@.hash_write_reaction(data@),
    {
        if data.len() == 32 {
            self.ota.set_expected_hash(digest_from(data));
            self.ota_hash = slice_to_vec(data);
            only(Reply::Accept)
        } else {
            only(Reply::Reject(AttError::InvalidAttributeValueLength))
        }
    }

    #[verifier::rlimit(40)]
    fn write_control(&mut self, data: &[u8]) -> (r: Reaction)
        requires
            old(self)@.pending is None,
        ensures
            final(self)@ == old(self)@.after_control_write(data@),
            r == old(self)@.control_write_reaction(data@),
    {
        if data.len() != 1 {
            return only(Reply::Reject(AttError::InvalidAttributeValueLength));
        }
        let command: u8 = data[0];
        let status_before: u8 = self.ota_status;
        if command == OTA_CMD_BEGIN {
            match self.ota.begin_check() {
                Ok(_) => {
                    self.pending = Some(FlashRequest::CreateUpdater);
                    only(Reply::Defer(FlashRequest::CreateUpdater))
                },
                Err(e) => {
                    match e {
                        crate::ota::OtaError::HashNotSet => {},
                        _ => {
                            self.ota_status = OTA_STATUS_ERROR;
                        },
                    }
                    Reaction {
                        reply: Reply::Reject(AttError::UnlikelyError),
                        abort_updater: false,
                        new_config: None,
                        notify_status: status_notice(status_before, self.ota_status),
                        reset: false,
                    }
                },
            }
        } else if command == OTA_CMD_COMMIT {
            let was_receiving = self.ota.is_receiving();
            match self.ota.commit_ota() {
                Ok(_) => {
                    self.pending = Some(FlashRequest::CompleteUpdate);
                    only(Reply::Defer(FlashRequest::CompleteUpdate))
                },
                Err(_) => {
                    self.ota_status = OTA_STATUS_ERROR;
                    Reaction {
                        reply: Reply::Reject(AttError::UnlikelyError),
                        abort_updater: was_receiving,
                        new_config: None,
                        notify_status: status_notice(status_before, OTA_STATUS_ERROR),
                        reset: false,
                    }
                },
            }
        } else if command == OTA_CMD_ABORT {
            let was_receiving = self.ota.abort_ota();
            self.ota_control = OTA_CMD_ABORT;
            self.ota_status = OTA_STATUS_IDLE;
            Reaction {
                reply: Reply::Accept,
                abort_updater: was_receiving,
                new_config: None,
                notify_status: status_notice(status_before, OTA_STATUS_IDLE),
                reset: false,
            }
        } else {
            only(Reply::Reject(AttError::ValueNotAllowed))
        }
    }

    fn write_data(&mut self, data: &[u8]) -> (r: Reaction)
        requires
            old(self)@.pending is None,
        ensures
            final(self)@ == old(self)@.after_data_write(data@),
            r == old(self)@.data_write_reaction(data@),
    {
        let status_before: u8 = self.ota_status;
        match self.ota.write_ota_data(data) {
            Ok(_) => {
                self.pending = Some(FlashRequest::WriteChunk);
                only(Reply::Defer(FlashRequest::WriteChunk))
            },
            Err(_) => {
                self.ota_status = OTA_STATUS_ERROR;
                self.ota.abort_ota();
                Reaction {
                    reply: Reply::Reject(AttError::UnlikelyError),
                    abort_updater: false,
                    new_config: None,
                    notify_status: status_notice(status_before, OTA_STATUS_ERROR),
                    reset: false,
                }
            },
        }
    }

    /// Reacts to a write of `data` to `target`.
    pub fn handle_write(&mut self, target: Characteristic, data: &[u8]) -> (r: Reaction)
        ensures
            final(self)@ == old(self)@.after_write(target, data@),
            r == old(self)@.write_reaction(target, data@),
    {
        if self.pending.is_some() {
            return only(Reply::Reject(AttError::UnlikelyError));
        }
        match target {
            Characteristic::ConfigData => self.write_config(data),
            Characteristic::OtaControl => self.write_control(data),
            Characteristic::OtaHash => self.write_hash(data),
            Characteristic::OtaData => self.write_data(data),
            Characteristic::ConfigVersion => only(Reply::Accept),
            Characteristic::OtaStatus => only(Reply::Accept),
        }
    }

    /// Reacts to the end of the flash operation that the last reaction
    /// deferred to; `ok` tells whether it succeeded.
    #[verifier::rlimit(40)]
    pub fn flash_done(&mut self, ok: bool) -> (r: Reaction)
        ensures
            final(self)@ == old(self)@.after_flash(ok),
            r == old(self)@.flash_reaction(ok),
    {
        let status_before: u8 = self.ota_status;
        let request = match self.pending {
            None => {
                return only(Reply::Nothing);
            },
            Some(request) => request,
        };
        self.pending = None;
        let mut abort_updater = false;
        let mut reset = false;
        let good = match request {
            FlashRequest::CreateUpdater => {
                if self.ota.begin_ota(ok).is_ok() {
                    self.ota_control = OTA_CMD_BEGIN;
                    self.ota_status = OTA_STATUS_IN_PROGRESS;
                    true
                } else {
                    self.ota_status = OTA_STATUS_ERROR;
                    false
                }
            },
            FlashRequest::WriteChunk => {
                if !ok {
                    self.ota.abort_ota();
                    self.ota_status = OTA_STATUS_ERROR;
                    abort_updater = true;
                }
                ok
            },
            FlashRequest::CompleteUpdate => {
                if ok {
                    self.ota_control = OTA_CMD_COMMIT;
                    self.ota_status = OTA_STATUS_SUCCESS;
                    reset = true;
                } else {
                    self.ota_status = OTA_STATUS_ERROR;
                }
                ok
            },
        };
        Reaction {
            reply: if good {
                Reply::Accept
            } else {
                Reply::Reject(AttError::UnlikelyError)
            },
            abort_updater,
            new_config: None,
            notify_status: status_notice(status_before, self.ota_status),
            reset,
        }
    }

    /// Reacts to the loss of the connection.
    pub fn disconnect(&mut self) -> (r: Reaction)
        ensures
            final(self)@ == old(self)@.after_disconnect(),
            r == old(self)@.disconnect_reaction(),
    {
        let status_before: u8 = self.ota_status;
        let was_receiving = self.ota.abort_ota();
        let was_pending = self.pending.is_some();
        self.pending = None;
        self.ota_status = OTA_STATUS_IDLE;
        Reaction {
            reply: Reply::Nothing,
            abort_updater: was_receiving || was_pending,
            new_config: None,
            notify_status: status_notice(status_before, OTA_STATUS_IDLE),
            reset: false,
        }
    }
}


impl ServerModel {
    /// While an image is received a digest is expected, and a deferred
    /// chunk belongs to an update that is running.
    pub open spec fn consistent(self) -> bool {
        &&& self.ota.receiving() ==> self.ota.expected_hash is Some
        &&& self.pending == Some(FlashRequest::WriteChunk) ==> self.ota.receiving()
        &&& self.pending == Some(FlashRequest::CompleteUpdate) ==> !self.ota.receiving()
        &&& self.pending == Some(FlashRequest::CreateUpdater) ==> self.ota.begin_check() is Ok
    }

    /// No update is running and none is about to start or to complete.
    pub open spec fn at_rest(self) -> bool {
        !self.ota.receiving() && self.pending is None
    }

    /// The write is a begin command.
    pub open spec fn is_begin(target: Characteristic, data: Seq<u8>) -> bool {
        target == Characteristic::OtaControl && data.len() == 1 && data[0] == OTA_CMD_BEGIN
    }

    /// The write is a commit command.
    pub open spec fn is_commit(target: Characteristic, data: Seq<u8>) -> bool {
        target == Characteristic::OtaControl && data.len() == 1 && data[0] == OTA_CMD_COMMIT
    }
}

/// The server starts out consistent and at rest, and every event keeps it consistent.
pub proof fn lemma_consistency_is_kept(
    m: ServerModel,
    target: Characteristic,
    data: Seq<u8>,
    ok: bool,
    config_data: Seq<u8>,
)
    requires
        m.consistent(),
    ensures
        ServerModel::initial(config_data).consistent(),
        ServerModel::initial(config_data).at_rest(),
        m.after_write(target, data).consistent(),
        m.after_flash(ok).consistent(),
        m.after_disconnect().consistent(),
        m.after_disconnect().at_rest(),
{
}

/// A begin command without an expected digest is rejected and changes
/// nothing: in particular an idle status stays idle, and no flash writer is
/// asked for.
pub proof fn lemma_begin_without_hash_is_rejected(m: ServerModel, data: Seq<u8>)
    requires
        m.consistent(),
        m.pending is None,
        m.ota.expected_hash is None,
        ServerModel::is_begin(Characteristic::OtaControl, data),
    ensures
        m.write_reaction(Characteristic::OtaControl, data) == Reaction::only(
            Reply::Reject(AttError::UnlikelyError),
        ),
        m.after_write(Characteristic::OtaControl, data) == m,
{
}

/// A commit command for an image whose digest is not the expected one is
/// rejected with the error status, ends the update, and asks neither for
/// the partition to be made bootable nor for a restart.
pub proof fn lemma_commit_with_wrong_hash_fails(m: ServerModel, data: Seq<u8>)
    requires
        m.pending is None,
        m.ota.receiving(),
        m.ota.expected_hash != Some(crate::ota::sha256(m.ota.image->Some_0)),
        ServerModel::is_commit(Characteristic::OtaControl, data),
    ensures
        m.write_reaction(Characteristic::OtaControl, data).reply == Reply::Reject(
            AttError::UnlikelyError,
        ),
        !m.write_reaction(Characteristic::OtaControl, data).reset,
        m.write_reaction(Characteristic::OtaControl, data).abort_updater,
        m.after_write(Characteristic::OtaControl, data).ota_status == OTA_STATUS_ERROR,
        m.after_write(Characteristic::OtaControl, data).at_rest(),
{
}

/// The flash writer is asked to make the partition bootable only for an
/// image whose digest is the expected one, and a restart is asked for only
/// when that request succeeded.
pub proof fn lemma_bootable_only_when_verified(
    m: ServerModel,
    target: Characteristic,
    data: Seq<u8>,
    ok: bool,
)
    ensures
        m.write_reaction(target, data).reply == Reply::Defer(FlashRequest::CompleteUpdate) ==> {
            &&& ServerModel::is_commit(target, data)
            &&& m.ota.receiving()
            &&& m.ota.expected_hash == Some(crate::ota::sha256(m.ota.image->Some_0))
        },
        !m.write_reaction(target, data).reset,
        !m.disconnect_reaction().reset,
        m.flash_reaction(ok).reset ==> ok && m.pending == Some(FlashRequest::CompleteUpdate),
        m.after_flash(ok).ota_status == OTA_STATUS_SUCCESS && m.ota_status != OTA_STATUS_SUCCESS
            ==> ok && m.pending == Some(FlashRequest::CompleteUpdate),
{
}

/// Once the server is at rest, as it is after a disconnect, only a begin
/// command leads away from rest: every other event leaves it at rest, and
/// none of them, a commit included, asks for a bootable partition or a restart.
pub proof fn lemma_rest_ends_only_with_begin(
    m: ServerModel,
    target: Characteristic,
    data: Seq<u8>,
    ok: bool,
)
    requires
        m.at_rest(),
    ensures
        !ServerModel::is_begin(target, data) ==> m.after_write(target, data).at_rest(),
        !(m.write_reaction(target, data).reply is Defer) || ServerModel::is_begin(target, data),
        ServerModel::is_commit(target, data) ==> m.write_reaction(target, data).reply
            == Reply::Reject(AttError::UnlikelyError) && m.after_write(target, data).ota_status
            == OTA_STATUS_ERROR,
        m.after_flash(ok) == m,
        m.flash_reaction(ok) == Reaction::only(Reply::Nothing),
        m.after_disconnect().at_rest(),
{
}

/// A commit after a disconnect in the middle of a transfer is rejected.
pub proof fn lemma_commit_after_disconnect_fails(m: ServerModel, data: Seq<u8>)
    requires
        ServerModel::is_commit(Characteristic::OtaControl, data),
    ensures
        m.after_disconnect().write_reaction(Characteristic::OtaControl, data).reply
            == Reply::Reject(AttError::UnlikelyError),
        m.after_disconnect().after_write(Characteristic::OtaControl, data).ota_status
            == OTA_STATUS_ERROR,
        m.after_disconnect().after_write(Characteristic::OtaControl, data).at_rest(),
{
}

/// A write to the configuration data that cannot be read as a document is
/// rejected for its value, whatever its length: nothing is handed to the
/// renderer and the server stays as it was. So is a document that can be
/// read but does not fit the attribute or is not valid.
pub proof fn lemma_unreadable_config_is_not_allowed(m: ServerModel, data: Seq<u8>)
    requires
        m.pending is None,
        parse_config(data) is Err || data.len() > CONFIG_MAX_BYTES || !parse_config(
            data,
        )->Ok_0.valid(),
    ensures
        m.write_reaction(Characteristic::ConfigData, data) == Reaction::only(
            Reply::Reject(AttError::ValueNotAllowed),
        ),
        m.after_write(Characteristic::ConfigData, data) == m,
{
}

/// Every configuration that is handed to the renderer is valid: the bands
/// of its channels lie inside the spectrum.
pub proof fn lemma_accepted_configs_are_valid(
    m: ServerModel,
    target: Characteristic,
    data: Seq<u8>,
    ok: bool,
)
    ensures
        m.write_reaction(target, data).new_config matches Some(c) ==> c.valid()
            && target == Characteristic::ConfigData && parse_config(data) == Ok::<
            AppConfig,
            ConfigError,
        >(c),
        m.flash_reaction(ok).new_config is None,
        m.disconnect_reaction().new_config is None,
{
}

/// A valid configuration that fits the attribute is accepted when it is
/// written in its serialized form; a read of the configuration data then
/// gives that form back, byte for byte, and the renderer gets the document.
pub proof fn lemma_config_write_reads_back(m: ServerModel, c: AppConfig)
    requires
        m.pending is None,
        c.valid(),
        config_bytes(c).len() <= CONFIG_MAX_BYTES,
    ensures
        m.write_reaction(Characteristic::ConfigData, config_bytes(c)).reply == Reply::Accept,
        m.write_reaction(Characteristic::ConfigData, config_bytes(c)).new_config == Some(c),
        m.after_write(Characteristic::ConfigData, config_bytes(c)).value_of(
            Characteristic::ConfigData,
        ) == Some(config_bytes(c)),
{
    crate::wire::lemma_config_round_trip(c, Seq::<u8>::empty());
    assert(config_bytes(c) + Seq::<u8>::empty() =~= config_bytes(c));
}

} // verus!
