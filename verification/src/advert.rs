//! What the peripheral broadcasts while it waits for a central.
//!
//! An advertisement holds at most 31 bytes. The device name and the 128-bit
//! service UUID do not fit one together, so the advertising data carries the
//! flags and the UUID of the configuration service, and the scan response
//! carries the complete local name.

use vstd::prelude::*;

verus! {

/// Name under which the device shows up.
pub const DEVICE_NAME: &'static str = "Diskomator";

/// Most bytes in an advertisement or a scan response.
pub const MAX_ADVERTISEMENT_BYTES: usize = 31;

/// Flag: the device can be discovered at any time.
pub const LE_GENERAL_DISCOVERABLE: u8 = 0x02;

/// Flag: the device does not speak classic Bluetooth.
pub const BR_EDR_NOT_SUPPORTED: u8 = 0x04;

/// UUID of the configuration service, `bbafe0b7-bf3a-405a-bff7-d632c44c85f8`,
/// low byte first as it goes over the air.
pub const CONFIG_SERVICE_UUID_LE: [u8; 16] = [
    0xf8, 0x85, 0x4c, 0xc4, 0x32, 0xd6, 0xf7, 0xbf, 0x5a, 0x40, 0x3a, 0xbf, 0xb7, 0xe0, 0xaf, 0xbb,
];

/// One structure of advertising data.
#[derive(Debug, PartialEq, Eq)]
pub enum AdItem {
    /// Device flags.
    Flags(u8),
    /// A complete list of one 128-bit service UUID, low byte first.
    ServiceUuid128([u8; 16]),
    /// The complete local name.
    CompleteLocalName(Vec<u8>),
}

/// The bytes of one structure: its length, its type, its payload.
pub open spec fn item_bytes(item: AdItem) -> Seq<u8> {
    match item {
        AdItem::Flags(flags) => seq![0x02u8, 0x01u8, flags],
        AdItem::ServiceUuid128(uuid) => seq![17u8, 0x07u8] + uuid@,
        AdItem::CompleteLocalName(name) => seq![(name@.len() + 1) as u8, 0x09u8] + name@,
    }
}

/// The bytes of a run of structures, one after the other.
pub open spec fn items_bytes(items: Seq<AdItem>) -> Seq<u8>
    decreases items.len(),
{
    if items.len() == 0 {
        Seq::<u8>::empty()
    } else {
        items_bytes(items.drop_last()) + item_bytes(items.last())
    }
}

/// `trouble_host::advertise::AdStructure::encode_slice` on a buffer of
/// `MAX_ADVERTISEMENT_BYTES` bytes, with the items as `Flags`,
/// `CompleteServiceUuids128` of one UUID and `CompleteLocalName`: the
/// structures are written one after the other, and the call fails when they
/// take more than the buffer holds.
#[verifier::external_body]
fn encode_items(items: &[AdItem]) -> (encoded: Option<Vec<u8>>)
    ensures
        encoded is Some == (items_bytes(items@).len() <= MAX_ADVERTISEMENT_BYTES),
        encoded matches Some(bytes) ==> bytes@ == items_bytes(items@),
{
    let structures: Vec<trouble_host::advertise::AdStructure<'_>> = items.iter().map(
        |item| match item {
            AdItem::Flags(f) => trouble_host::advertise::AdStructure::Flags(*f),
            AdItem::ServiceUuid128(u) => trouble_host::advertise::AdStructure::CompleteServiceUuids128(
                core::slice::from_ref(u),
            ),
            AdItem::CompleteLocalName(n) => trouble_host::advertise::AdStructure::CompleteLocalName(n),
        },
    ).collect();
    let mut buffer = [0u8; MAX_ADVERTISEMENT_BYTES];
    match trouble_host::advertise::AdStructure::encode_slice(&structures, &mut buffer) {
        Ok(len) => Some(buffer[..len].to_vec()),
        Err(_) => None,
    }
}

/// The two payloads of an advertisement.
#[derive(Debug, PartialEq, Eq)]
pub struct Advertisement {
    /// Sent unasked: flags and service UUID.
    pub adv_data: Vec<u8>,
    /// Sent when a scanner asks: the name.
    pub scan_data: Vec<u8>,
}

/// The advertising data: general discoverable, no classic Bluetooth, and
/// the UUID of the configuration service.
pub open spec fn adv_bytes() -> Seq<u8> {
    seq![0x02u8, 0x01u8, 0x06u8, 17u8, 0x07u8] + CONFIG_SERVICE_UUID_LE@
}

/// The scan response for a name.
pub open spec fn scan_bytes(name: Seq<u8>) -> Seq<u8> {
    seq![(name.len() + 1) as u8, 0x09u8] + name
}

/// Builds the payloads that advertise the configuration service under
/// `name`. A name of more than 29 bytes does not fit the scan response.
pub fn advertisement(name: &[u8]) -> (r: Option<Advertisement>)
    ensures
        r is Some == (name@.len() <= 29),
        r matches Some(a) ==> a.adv_data@ == adv_bytes() && a.scan_data@ == scan_bytes(name@),
{
    let flags: u8 = LE_GENERAL_DISCOVERABLE | BR_EDR_NOT_SUPPORTED;
    assert(0x02u8 | 0x04u8 == 0x06u8) by (bit_vector);
    let mut adv_items: Vec<AdItem> = Vec::new();
    adv_items.push(AdItem::Flags(flags));
    adv_items.push(AdItem::ServiceUuid128(CONFIG_SERVICE_UUID_LE));
    let mut scan_items: Vec<AdItem> = Vec::new();
    scan_items.push(AdItem::CompleteLocalName(vstd::slice::slice_to_vec(name)));
    proof {
        reveal_with_fuel(items_bytes, 3);
        let a = adv_items@;
        assert(a.drop_last().drop_last() =~= Seq::<AdItem>::empty());
        assert(a.drop_last().last() == AdItem::Flags(flags));
        assert(items_bytes(a) =~= adv_bytes());
        let s = scan_items@;
        assert(s.drop_last() =~= Seq::<AdItem>::empty());
        assert(items_bytes(s) =~= scan_bytes(name@));
    }
    let adv_data = encode_items(adv_items.as_slice())?;
    let scan_data = encode_items(scan_items.as_slice())?;
    Some(Advertisement { adv_data, scan_data })
}

} // verus!
