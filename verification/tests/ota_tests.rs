use diskomator::config::AppConfig;
use diskomator::gatt::{AttError, Characteristic, FlashRequest, GattServer, Reaction, Reply};
use diskomator::ota::{
    digests_match, sha256_digest, OtaError, OtaState, OTA_CMD_ABORT, OTA_CMD_BEGIN,
    OTA_CMD_COMMIT, OTA_STATUS_ERROR, OTA_STATUS_IDLE, OTA_STATUS_IN_PROGRESS,
    OTA_STATUS_SUCCESS,
};
use diskomator::wire::ConfigError;

const ABC_DIGEST: [u8; 32] = [
    0xba, 0x78, 0x16, 0xbf, 0x8f, 0x01, 0xcf, 0xea, 0x41, 0x41, 0x40, 0xde, 0x5d, 0xae, 0x22, 0x23,
    0xb0, 0x03, 0x61, 0xa3, 0x96, 0x17, 0x7a, 0x9c, 0xb4, 0x10, 0xff, 0x61, 0xf2, 0x00, 0x15, 0xad,
];

const EMPTY_DIGEST: [u8; 32] = [
    0xe3, 0xb0, 0xc4, 0x42, 0x98, 0xfc, 0x1c, 0x14, 0x9a, 0xfb, 0xf4, 0xc8, 0x99, 0x6f, 0xb9, 0x24,
    0x27, 0xae, 0x41, 0xe4, 0x64, 0x9b, 0x93, 0x4c, 0xa4, 0x95, 0x99, 0x1b, 0x78, 0x52, 0xb8, 0x55,
];

fn only(reply: Reply) -> Reaction {
    Reaction { reply, abort_updater: false, new_config: None, notify_status: None, reset: false }
}

fn server() -> GattServer {
    GattServer::new(&AppConfig::default()).unwrap()
}

/// Begin an update of an image that is expected to hash to `digest`.
fn begun(digest: &[u8; 32]) -> GattServer {
    let mut s = server();
    assert_eq!(s.handle_write(Characteristic::OtaHash, digest), only(Reply::Accept));
    assert_eq!(
        s.handle_write(Characteristic::OtaControl, &[OTA_CMD_BEGIN]),
        only(Reply::Defer(FlashRequest::CreateUpdater))
    );
    let r = s.flash_done(true);
    assert_eq!(r.reply, Reply::Accept);
    assert_eq!(r.notify_status, Some(OTA_STATUS_IN_PROGRESS));
    s
}

fn stream(s: &mut GattServer, chunk: &[u8]) {
    assert_eq!(s.handle_write(Characteristic::OtaData, chunk), only(Reply::Defer(FlashRequest::WriteChunk)));
    assert_eq!(s.flash_done(true), only(Reply::Accept));
}

#[test]
fn digest_of_known_messages() {
    assert_eq!(sha256_digest(b"abc"), ABC_DIGEST);
    assert_eq!(sha256_digest(b""), EMPTY_DIGEST);
    assert_ne!(sha256_digest(b"abd"), ABC_DIGEST);
}

#[test]
fn digests_are_compared_byte_by_byte() {
    let mut other = ABC_DIGEST;
    assert!(digests_match(&ABC_DIGEST, &other));
    other[31] ^= 1;
    assert!(!digests_match(&ABC_DIGEST, &other));
    other = ABC_DIGEST;
    other[0] ^= 0x80;
    assert!(!digests_match(&ABC_DIGEST, &other));
}

#[test]
fn happy_path_ends_in_success_and_one_reset() {
    let mut s = server();
    let mut statuses = vec![s.ota_status()];
    let mut resets = 0;
    let mut note = |r: &Reaction| {
        if let Some(st) = r.notify_status {
            statuses.push(st);
        }
        if r.reset {
            resets += 1;
        }
    };
    note(&s.handle_write(Characteristic::OtaHash, &ABC_DIGEST));
    let r = s.handle_write(Characteristic::OtaControl, &[OTA_CMD_BEGIN]);
    assert_eq!(r.reply, Reply::Defer(FlashRequest::CreateUpdater));
    note(&r);
    note(&s.flash_done(true));
    assert!(s.is_receiving());
    let r = s.handle_write(Characteristic::OtaData, b"abc");
    assert_eq!(r.reply, Reply::Defer(FlashRequest::WriteChunk));
    note(&r);
    note(&s.flash_done(true));
    assert_eq!(s.bytes_received(), 3);
    let r = s.handle_write(Characteristic::OtaControl, &[OTA_CMD_COMMIT]);
    assert_eq!(r, only(Reply::Defer(FlashRequest::CompleteUpdate)));
    note(&r);
    let r = s.flash_done(true);
    assert_eq!(r.reply, Reply::Accept);
    assert!(r.reset);
    note(&r);
    assert_eq!(statuses, vec![OTA_STATUS_IDLE, OTA_STATUS_IN_PROGRESS, OTA_STATUS_SUCCESS]);
    assert_eq!(resets, 1);
    assert_eq!(s.read(Characteristic::OtaStatus), Some(vec![OTA_STATUS_SUCCESS]));
    assert_eq!(s.read(Characteristic::OtaControl), Some(vec![OTA_CMD_COMMIT]));
    assert!(!s.is_receiving());
}

#[test]
fn image_may_arrive_in_chunks() {
    let mut s = begun(&ABC_DIGEST);
    stream(&mut s, b"a");
    stream(&mut s, b"");
    stream(&mut s, b"bc");
    assert_eq!(s.bytes_received(), 3);
    assert_eq!(
        s.handle_write(Characteristic::OtaControl, &[OTA_CMD_COMMIT]).reply,
        Reply::Defer(FlashRequest::CompleteUpdate)
    );
}

#[test]
fn wrong_image_is_not_made_bootable() {
    let mut s = begun(&ABC_DIGEST);
    stream(&mut s, b"abd");
    let r = s.handle_write(Characteristic::OtaControl, &[OTA_CMD_COMMIT]);
    assert_eq!(
        r,
        Reaction {
            reply: Reply::Reject(AttError::UnlikelyError),
            abort_updater: true,
            new_config: None,
            notify_status: Some(OTA_STATUS_ERROR),
            reset: false,
        }
    );
    assert_eq!(s.ota_status(), OTA_STATUS_ERROR);
    assert_eq!(s.pending(), None);
    assert!(!s.is_receiving());
    // nothing is awaited, so a stray flash report does nothing
    assert_eq!(s.flash_done(true), only(Reply::Nothing));
    assert_eq!(s.ota_status(), OTA_STATUS_ERROR);
}

#[test]
fn begin_without_hash_is_rejected_and_status_stays_idle() {
    let mut s = server();
    let r = s.handle_write(Characteristic::OtaControl, &[OTA_CMD_BEGIN]);
    assert_eq!(r, only(Reply::Reject(AttError::UnlikelyError)));
    assert_eq!(s.ota_status(), OTA_STATUS_IDLE);
    assert_eq!(s.pending(), None);
    assert!(!s.is_receiving());
    assert_eq!(s.read(Characteristic::OtaControl), Some(vec![0]));
}

#[test]
fn begin_during_an_update_sets_the_error_status() {
    let mut s = begun(&ABC_DIGEST);
    let r = s.handle_write(Characteristic::OtaControl, &[OTA_CMD_BEGIN]);
    assert_eq!(r.reply, Reply::Reject(AttError::UnlikelyError));
    assert_eq!(r.notify_status, Some(OTA_STATUS_ERROR));
    assert!(!r.abort_updater);
    assert!(s.is_receiving());
}

#[test]
fn flash_writer_that_cannot_be_created_fails_the_begin() {
    let mut s = server();
    s.handle_write(Characteristic::OtaHash, &ABC_DIGEST);
    s.handle_write(Characteristic::OtaControl, &[OTA_CMD_BEGIN]);
    let r = s.flash_done(false);
    assert_eq!(r.reply, Reply::Reject(AttError::UnlikelyError));
    assert_eq!(r.notify_status, Some(OTA_STATUS_ERROR));
    assert!(!s.is_receiving());
    assert_eq!(s.read(Characteristic::OtaControl), Some(vec![0]));
}

#[test]
fn failed_flash_write_aborts_the_update() {
    let mut s = begun(&ABC_DIGEST);
    stream(&mut s, b"ab");
    assert_eq!(s.handle_write(Characteristic::OtaData, b"c").reply, Reply::Defer(FlashRequest::WriteChunk));
    let r = s.flash_done(false);
    assert_eq!(
        r,
        Reaction {
            reply: Reply::Reject(AttError::UnlikelyError),
            abort_updater: true,
            new_config: None,
            notify_status: Some(OTA_STATUS_ERROR),
            reset: false,
        }
    );
    assert!(!s.is_receiving());
    assert_eq!(s.bytes_received(), 0);
    // the expected digest is forgotten with the update
    assert_eq!(s.handle_write(Characteristic::OtaControl, &[OTA_CMD_BEGIN]).reply, Reply::Reject(AttError::UnlikelyError));
}

#[test]
fn failed_completion_is_an_error_without_reset() {
    let mut s = begun(&ABC_DIGEST);
    stream(&mut s, b"abc");
    s.handle_write(Characteristic::OtaControl, &[OTA_CMD_COMMIT]);
    let r = s.flash_done(false);
    assert_eq!(r.reply, Reply::Reject(AttError::UnlikelyError));
    assert!(!r.reset);
    assert_eq!(s.ota_status(), OTA_STATUS_ERROR);
}

#[test]
fn data_without_begin_is_an_error() {
    let mut s = server();
    s.handle_write(Characteristic::OtaHash, &ABC_DIGEST);
    let r = s.handle_write(Characteristic::OtaData, b"abc");
    assert_eq!(r.reply, Reply::Reject(AttError::UnlikelyError));
    assert_eq!(r.notify_status, Some(OTA_STATUS_ERROR));
    assert!(!r.abort_updater);
    assert_eq!(s.pending(), None);
}

#[test]
fn commit_without_begin_is_an_error() {
    let mut s = server();
    s.handle_write(Characteristic::OtaHash, &EMPTY_DIGEST);
    let r = s.handle_write(Characteristic::OtaControl, &[OTA_CMD_COMMIT]);
    assert_eq!(r.reply, Reply::Reject(AttError::UnlikelyError));
    assert!(!r.abort_updater);
    assert!(!r.reset);
    assert_eq!(s.ota_status(), OTA_STATUS_ERROR);
}

#[test]
fn abort_returns_to_idle() {
    let mut s = begun(&ABC_DIGEST);
    stream(&mut s, b"ab");
    let r = s.handle_write(Characteristic::OtaControl, &[OTA_CMD_ABORT]);
    assert_eq!(
        r,
        Reaction {
            reply: Reply::Accept,
            abort_updater: true,
            new_config: None,
            notify_status: Some(OTA_STATUS_IDLE),
            reset: false,
        }
    );
    assert!(!s.is_receiving());
    assert_eq!(s.bytes_received(), 0);
    assert_eq!(s.read(Characteristic::OtaControl), Some(vec![OTA_CMD_ABORT]));
    // abort while idle is accepted too and asks for nothing
    let r = s.handle_write(Characteristic::OtaControl, &[OTA_CMD_ABORT]);
    assert_eq!(r, only(Reply::Accept));
}

#[test]
fn disconnect_in_the_middle_needs_a_fresh_begin() {
    let mut s = begun(&ABC_DIGEST);
    stream(&mut s, b"abc");
    let r = s.disconnect();
    assert_eq!(r.reply, Reply::Nothing);
    assert!(r.abort_updater);
    assert_eq!(r.notify_status, Some(OTA_STATUS_IDLE));
    assert_eq!(s.ota_status(), OTA_STATUS_IDLE);
    assert!(!s.is_receiving());
    // the next central cannot commit what the last one sent
    let r = s.handle_write(Characteristic::OtaControl, &[OTA_CMD_COMMIT]);
    assert_eq!(r.reply, Reply::Reject(AttError::UnlikelyError));
    assert!(!r.reset);
    // nor stream on
    assert_eq!(s.handle_write(Characteristic::OtaData, b"x").reply, Reply::Reject(AttError::UnlikelyError));
    // nor begin without setting the digest again
    assert_eq!(s.handle_write(Characteristic::OtaControl, &[OTA_CMD_BEGIN]).reply, Reply::Reject(AttError::UnlikelyError));
    // a fresh begin works
    s.handle_write(Characteristic::OtaHash, &ABC_DIGEST);
    assert_eq!(s.handle_write(Characteristic::OtaControl, &[OTA_CMD_BEGIN]).reply, Reply::Defer(FlashRequest::CreateUpdater));
    s.flash_done(true);
    stream(&mut s, b"abc");
    assert_eq!(s.handle_write(Characteristic::OtaControl, &[OTA_CMD_COMMIT]).reply, Reply::Defer(FlashRequest::CompleteUpdate));
}

#[test]
fn disconnect_while_idle_asks_for_nothing() {
    let mut s = server();
    assert_eq!(s.disconnect(), only(Reply::Nothing));
}

#[test]
fn control_takes_one_byte_that_is_a_command() {
    let mut s = server();
    for bad in [&[][..], &[1, 2][..], &[OTA_CMD_BEGIN, OTA_CMD_BEGIN][..]] {
        assert_eq!(
            s.handle_write(Characteristic::OtaControl, bad),
            only(Reply::Reject(AttError::InvalidAttributeValueLength))
        );
    }
    for bad in [0u8, 4, 0xFF] {
        assert_eq!(
            s.handle_write(Characteristic::OtaControl, &[bad]),
            only(Reply::Reject(AttError::ValueNotAllowed))
        );
    }
    assert_eq!(s.ota_status(), OTA_STATUS_IDLE);
}

#[test]
fn hash_takes_exactly_32_bytes() {
    let mut s = server();
    for len in [0usize, 1, 31, 33, 64] {
        assert_eq!(
            s.handle_write(Characteristic::OtaHash, &vec![7; len]),
            only(Reply::Reject(AttError::InvalidAttributeValueLength))
        );
    }
    assert_eq!(s.read(Characteristic::OtaHash), Some(vec![]));
    assert_eq!(s.handle_write(Characteristic::OtaHash, &ABC_DIGEST), only(Reply::Accept));
    assert_eq!(s.read(Characteristic::OtaHash), Some(ABC_DIGEST.to_vec()));
}

#[test]
fn writes_wait_while_flash_is_busy() {
    let mut s = begun(&ABC_DIGEST);
    assert_eq!(s.handle_write(Characteristic::OtaData, b"abc").reply, Reply::Defer(FlashRequest::WriteChunk));
    assert_eq!(s.pending(), Some(FlashRequest::WriteChunk));
    for target in [Characteristic::OtaData, Characteristic::OtaControl, Characteristic::ConfigData, Characteristic::OtaHash] {
        assert_eq!(s.handle_write(target, &[OTA_CMD_COMMIT]), only(Reply::Reject(AttError::UnlikelyError)));
    }
    assert_eq!(s.flash_done(true), only(Reply::Accept));
    assert_eq!(s.bytes_received(), 3);
}

#[test]
fn config_write_is_stored_and_handed_on() {
    let mut s = server();
    let bytes = AppConfig::default().to_bytes::<200>().unwrap();
    assert_eq!(s.read(Characteristic::ConfigData), Some(bytes.clone()));
    let stripes = AppConfig::stripes();
    let wire = stripes.to_bytes::<200>().unwrap();
    let r = s.handle_write(Characteristic::ConfigData, &wire);
    assert_eq!(r, Reaction { new_config: Some(stripes), ..only(Reply::Accept) });
    assert_eq!(s.read(Characteristic::ConfigData), Some(wire));
}

#[test]
fn default_config_reads_back_identical() {
    let mut s = GattServer::new(&AppConfig::stripes()).unwrap();
    let wire = AppConfig::bars2().to_bytes::<200>().unwrap();
    assert_eq!(s.handle_write(Characteristic::ConfigData, &wire).new_config, Some(AppConfig::bars2()));
    let back = s.read(Characteristic::ConfigData).unwrap();
    assert_eq!(back, wire);
    assert_eq!(AppConfig::from_bytes(&back), Ok(AppConfig::bars2()));
}

#[test]
fn bad_config_is_not_allowed() {
    let mut s = server();
    let before = s.read(Characteristic::ConfigData);
    let wire = AppConfig::stripes().to_bytes::<200>().unwrap();
    assert_eq!(
        s.handle_write(Characteristic::ConfigData, &wire[..50]),
        only(Reply::Reject(AttError::ValueNotAllowed))
    );
    assert_eq!(s.handle_write(Characteristic::ConfigData, &[]), only(Reply::Reject(AttError::ValueNotAllowed)));
    // a document that can be read but does not fit the attribute
    let mut long = wire.clone();
    long.resize(201, 0);
    assert_eq!(AppConfig::from_bytes(&long), Ok(AppConfig::stripes()));
    assert_eq!(
        s.handle_write(Characteristic::ConfigData, &long),
        only(Reply::Reject(AttError::ValueNotAllowed))
    );
    assert_eq!(s.read(Characteristic::ConfigData), before);
    // bytes that cannot be read, of any length
    for len in [1usize, 200, 201, 512] {
        let junk = vec![0xFF; len];
        assert!(AppConfig::from_bytes(&junk).is_err());
        assert_eq!(
            s.handle_write(Characteristic::ConfigData, &junk),
            only(Reply::Reject(AttError::ValueNotAllowed))
        );
        assert_eq!(s.read(Characteristic::ConfigData), before);
    }
    long.truncate(200);
    assert_eq!(s.handle_write(Characteristic::ConfigData, &long).reply, Reply::Accept);
    assert_eq!(s.read(Characteristic::ConfigData), Some(long));
    assert_ne!(s.read(Characteristic::ConfigData), before);
}

#[test]
fn config_with_a_band_outside_the_spectrum_is_not_allowed() {
    let mut s = server();
    let before = s.read(Characteristic::ConfigData);
    let mut c = AppConfig::stripes();
    if let diskomator::config::NeopixelMatrixPattern::Stripes(ch) = &mut c.pattern {
        ch[3].end_index = 256;
    }
    let wire = c.to_bytes::<200>().unwrap();
    assert_eq!(AppConfig::from_bytes(&wire), Ok(c));
    assert_eq!(s.handle_write(Characteristic::ConfigData, &wire), only(Reply::Reject(AttError::ValueNotAllowed)));
    assert_eq!(s.read(Characteristic::ConfigData), before);
    if let diskomator::config::NeopixelMatrixPattern::Stripes(ch) = &mut c.pattern {
        ch[3].end_index = 255;
    }
    let wire = c.to_bytes::<200>().unwrap();
    assert_eq!(s.handle_write(Characteristic::ConfigData, &wire).new_config, Some(c));
}

#[test]
fn reads_give_the_current_values() {
    let s = server();
    assert_eq!(s.read(Characteristic::ConfigVersion), Some(vec![1, 0, 0, 0]));
    assert_eq!(s.read(Characteristic::OtaControl), Some(vec![0]));
    assert_eq!(s.read(Characteristic::OtaStatus), Some(vec![OTA_STATUS_IDLE]));
    assert_eq!(s.read(Characteristic::OtaData), None);
}

#[test]
fn read_only_characteristics_take_writes_without_effect() {
    let mut s = server();
    assert_eq!(s.handle_write(Characteristic::ConfigVersion, &[9, 9, 9, 9]), only(Reply::Accept));
    assert_eq!(s.handle_write(Characteristic::OtaStatus, &[OTA_STATUS_SUCCESS]), only(Reply::Accept));
    assert_eq!(s.read(Characteristic::ConfigVersion), Some(vec![1, 0, 0, 0]));
    assert_eq!(s.ota_status(), OTA_STATUS_IDLE);
}

#[test]
fn server_needs_a_config_that_fits() {
    let mut c = AppConfig::bars2();
    c.sample_count = usize::MAX;
    assert!(c.to_bytes::<512>().unwrap().len() > 200);
    assert_eq!(GattServer::new(&c).err(), Some(ConfigError::BufferFull));
}

#[test]
fn att_error_codes() {
    assert_eq!(AttError::ValueNotAllowed.code(), 0x13);
    assert_eq!(AttError::InvalidAttributeValueLength.code(), 0x0D);
    assert_eq!(AttError::UnlikelyError.code(), 0x0E);
}

#[test]
fn state_steps_by_themselves() {
    let mut ota = OtaState::new();
    assert_eq!(ota.begin_check(), Err(OtaError::HashNotSet));
    assert_eq!(ota.begin_ota(true), Err(OtaError::HashNotSet));
    assert_eq!(ota.write_ota_data(b"x"), Err(OtaError::NotStarted));
    assert_eq!(ota.commit_ota(), Err(OtaError::NotStarted));
    assert!(!ota.abort_ota());
    ota.set_expected_hash(ABC_DIGEST);
    assert_eq!(ota.expected_hash(), Some(ABC_DIGEST));
    assert_eq!(ota.begin_ota(false), Err(OtaError::UpdaterCreationFailed));
    assert!(!ota.is_receiving());
    assert_eq!(ota.begin_check(), Ok(()));
    assert_eq!(ota.begin_ota(true), Ok(()));
    assert!(ota.is_receiving());
    assert_eq!(ota.begin_check(), Err(OtaError::AlreadyInProgress));
    assert_eq!(ota.begin_ota(true), Err(OtaError::AlreadyInProgress));
    assert_eq!(ota.write_ota_data(b"ab"), Ok(()));
    assert_eq!(ota.write_ota_data(b"c"), Ok(()));
    assert_eq!(ota.bytes_received(), 3);
    assert_eq!(ota.commit_ota(), Ok(()));
    assert!(!ota.is_receiving());
    assert_eq!(ota.expected_hash(), Some(ABC_DIGEST));
    // a second update starts from an empty image
    assert_eq!(ota.begin_ota(true), Ok(()));
    assert_eq!(ota.bytes_received(), 0);
    assert_eq!(ota.write_ota_data(b"abd"), Ok(()));
    assert_eq!(ota.commit_ota(), Err(OtaError::HashMismatch));
    assert!(!ota.is_receiving());
    assert_eq!(ota.begin_ota(true), Ok(()));
    assert!(ota.abort_ota());
    assert_eq!(ota.expected_hash(), None);
    assert_eq!(ota.bytes_received(), 0);
}

#[test]
fn ota_error_messages() {
    assert_eq!(OtaError::AlreadyInProgress.message(), "OTA already in progress");
    assert_eq!(OtaError::HashNotSet.message(), "Expected hash not set");
    assert_eq!(OtaError::UpdaterCreationFailed.message(), "Failed to create OtaUpdater");
    assert_eq!(OtaError::NotStarted.message(), "OTA not started");
    assert_eq!(OtaError::WriteFailed.message(), "Failed to write OTA data");
    assert_eq!(OtaError::HashMismatch.message(), "Hash validation failed");
    assert_eq!(OtaError::CompleteFailed.message(), "Failed to complete OTA update");
}
