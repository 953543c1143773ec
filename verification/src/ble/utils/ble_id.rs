use vstd::prelude::*;
use vstd::std_specs::cmp::PartialEqSpec;

verus! {

/// A standard service of the Bluetooth SIG, by its 16-bit assigned number.
#[derive(Debug, Clone, Copy, PartialEq, Eq, Structural)]
pub struct StandardServiceId(pub u16);

/// A standard characteristic of the Bluetooth SIG, by its 16-bit assigned number.
#[derive(Debug, Clone, Copy, PartialEq, Eq, Structural)]
pub struct StandardCharacteristicId(pub u16);

/// A standard descriptor of the Bluetooth SIG, by its 16-bit assigned number.
#[derive(Debug, Clone, Copy, PartialEq, Eq, Structural)]
pub struct StandardDescriptorId(pub u16);

/// A BLE UUID as the BLE stack holds it.
#[derive(Debug, Clone, Copy)]
pub enum BleUuid {
    Uuid16(u16),
    Uuid32(u32),
    Uuid128([u8; 16]),
}

/// The kinds of BLE ids:
/// - `FromUuid16`: a BLE id from a `u16`.
/// - `FromUuid128`: a BLE id from a `[u8; 16]`.
#[derive(Debug, Clone, Copy)]
pub enum BleId {
    FromUuid16(u16),
    FromUuid128([u8; 16]),
}

/// The Bluetooth base UUID (least significant byte first), into which
/// 16-bit and 32-bit UUIDs are placed at bytes 12 and up.
pub open spec fn base_uuid() -> Seq<u8> {
    seq![
        0xfbu8, 0x34, 0x9b, 0x5f, 0x80, 0x00, 0x00, 0x80, 0x00, 0x10, 0x00, 0x00, 0x00, 0x00, 0x00,
        0x00,
    ]
}

/// The 128-bit form of a UUID: 16-bit and 32-bit UUIDs are placed in the
/// base UUID, least significant byte first.
pub open spec fn uuid128_of(u: BleUuid) -> Seq<u8> {
    match u {
        BleUuid::Uuid16(x) => base_uuid().update(12, (x % 256) as u8).update(13, (x / 256) as u8),
        BleUuid::Uuid32(x) => base_uuid().update(12, (x % 256) as u8).update(
            13,
            ((x / 256) % 256) as u8,
        ).update(14, ((x / 65536) % 256) as u8).update(15, (x / 16777216) as u8),
        BleUuid::Uuid128(bytes) => bytes@,
    }
}

/// The bytes of a `u32`, least significant first.
fn u32_le_bytes(x: u32) -> (res: [u8; 4])
    ensures
        res@ == seq![
            (x % 256) as u8,
            ((x / 256) % 256) as u8,
            ((x / 65536) % 256) as u8,
            (x / 16777216) as u8,
        ],
{
    assert((x & 0xff) == x % 256) by (bit_vector);
    assert(((x >> 8u32) & 0xff) == (x / 256) % 256) by (bit_vector);
    assert(((x >> 16u32) & 0xff) == (x / 65536) % 256) by (bit_vector);
    assert((x >> 24u32) == x / 16777216) by (bit_vector);
    let res = [
        (x & 0xff) as u8,
        ((x >> 8u32) & 0xff) as u8,
        ((x >> 16u32) & 0xff) as u8,
        (x >> 24u32) as u8,
    ];
    assert(res@ =~= seq![
        (x % 256) as u8,
        ((x / 256) % 256) as u8,
        ((x / 65536) % 256) as u8,
        (x / 16777216) as u8,
    ]);
    res
}

impl BleUuid {
    /// The 128-bit form of the UUID.
    pub fn as_uuid128_array(&self) -> (res: [u8; 16])
        ensures
            res@ == uuid128_of(*self),
    {
        match self {
            BleUuid::Uuid16(x) => {
                let lo = (*x % 256) as u8;
                let hi = (*x / 256) as u8;
                let res = [
                    0xfbu8,
                    0x34,
                    0x9b,
                    0x5f,
                    0x80,
                    0x00,
                    0x00,
                    0x80,
                    0x00,
                    0x10,
                    0x00,
                    0x00,
                    lo,
                    hi,
                    0x00,
                    0x00,
                ];
                assert(res@ =~= uuid128_of(*self));
                res
            },
            BleUuid::Uuid32(x) => {
                let b = u32_le_bytes(*x);
                let res = [
                    0xfbu8,
                    0x34,
                    0x9b,
                    0x5f,
                    0x80,
                    0x00,
                    0x00,
                    0x80,
                    0x00,
                    0x10,
                    0x00,
                    0x00,
                    b[0],
                    b[1],
                    b[2],
                    b[3],
                ];
                assert(res@ =~= uuid128_of(*self));
                res
            },
            BleUuid::Uuid128(bytes) => *bytes,
        }
    }
}

/// What the BLE stack's uuid crate gives for the name-based (version 3, MD5)
/// UUID of `name` in the OID namespace, as its 16 bytes.
pub uninterp spec fn uuid_v3_oid(name: Seq<char>) -> Seq<u8>;

/// Calls `uuid::Uuid::new_v3` with `uuid::Uuid::NAMESPACE_OID` and the UTF-8
/// bytes of `name`, and returns the UUID's bytes. The contract claims only
/// that the bytes are a function of the name.
#[verifier::external_body]
fn name_uuid_bytes(name: &str) -> (bytes: [u8; 16])
    ensures
        bytes@ == uuid_v3_oid(name@),
{
    uuid::Uuid::new_v3(&uuid::Uuid::NAMESPACE_OID, name.as_bytes()).into_bytes()
}

impl BleId {
    /// The UUID that this id stands for.
    pub open spec fn spec_to_uuid(self) -> BleUuid {
        match self {
            BleId::FromUuid16(x) => BleUuid::Uuid16(x),
            BleId::FromUuid128(bytes) => BleUuid::Uuid128(bytes),
        }
    }

    /// The 128-bit form of the id, by which ids are compared.
    pub open spec fn uuid128(self) -> Seq<u8> {
        uuid128_of(self.spec_to_uuid())
    }

    /// The 16-bit id of a standard service.
    pub fn from_standard_service(id: StandardServiceId) -> (res: BleId)
        ensures
            res == BleId::FromUuid16(id.0),
    {
        BleId::FromUuid16(id.0)
    }

    /// The 16-bit id of a standard characteristic.
    pub fn from_standard_characteristic(id: StandardCharacteristicId) -> (res: BleId)
        ensures
            res == BleId::FromUuid16(id.0),
    {
        BleId::FromUuid16(id.0)
    }

    /// The 16-bit id of a standard descriptor.
    pub fn from_standard_descriptor(id: StandardDescriptorId) -> (res: BleId)
        ensures
            res == BleId::FromUuid16(id.0),
    {
        BleId::FromUuid16(id.0)
    }

    /// The 16-bit id made of the first two bytes of a UUID, read big-endian.
    pub fn from_uuid_bytes(bytes: [u8; 16]) -> (res: BleId)
        ensures
            res == BleId::FromUuid16((bytes@[0] * 256 + bytes@[1]) as u16),
    {
        let hi = bytes[0] as u16;
        let lo = bytes[1] as u16;
        BleId::FromUuid16(hi * 256 + lo)
    }

    /// A 16-bit id from a name: the first two bytes, big-endian, of the
    /// name-based UUID of the name in the OID namespace.
    pub fn from_name(name: &str) -> (res: BleId)
        ensures
            res == BleId::FromUuid16(
                (uuid_v3_oid(name@)[0] * 256 + uuid_v3_oid(name@)[1]) as u16,
            ),
    {
        let bytes = name_uuid_bytes(name);
        Self::from_uuid_bytes(bytes)
    }

    /// The id of a UUID of the BLE stack. A 32-bit UUID becomes a 128-bit id
    /// whose first four bytes are its little-endian bytes and the rest 0.
    pub fn from_ble_uuid(value: BleUuid) -> (res: BleId)
        ensures
            res == match value {
                BleUuid::Uuid16(x) => BleId::FromUuid16(x),
                BleUuid::Uuid32(x) => BleId::FromUuid128(
                    [
                        (x % 256) as u8,
                        ((x / 256) % 256) as u8,
                        ((x / 65536) % 256) as u8,
                        (x / 16777216) as u8,
                        0,
                        0,
                        0,
                        0,
                        0,
                        0,
                        0,
                        0,
                        0,
                        0,
                        0,
                        0,
                    ],
                ),
                BleUuid::Uuid128(bytes) => BleId::FromUuid128(bytes),
            },
    {
        match value {
            BleUuid::Uuid16(id) => BleId::FromUuid16(id),
            BleUuid::Uuid32(id) => {
                let b = u32_le_bytes(id);
                BleId::FromUuid128([b[0], b[1], b[2], b[3], 0, 0, 0, 0, 0, 0, 0, 0, 0, 0, 0, 0])
            },
            BleUuid::Uuid128(id) => BleId::FromUuid128(id),
        }
    }

    /// The UUID that this id stands for.
    pub fn to_uuid(&self) -> (res: BleUuid)
        ensures
            res == self.spec_to_uuid(),
    {
        match self {
            BleId::FromUuid16(uuid) => BleUuid::Uuid16(*uuid),
            BleId::FromUuid128(uuid) => BleUuid::Uuid128(*uuid),
        }
    }

    /// The number of bytes the id takes in an advertisement.
    pub open spec fn spec_byte_size(self) -> usize {
        match self {
            BleId::FromUuid16(_) => 2,
            BleId::FromUuid128(_) => 16,
        }
    }

    /// The number of bytes the id takes in an advertisement.
    pub fn byte_size(&self) -> (res: usize)
        ensures
            res == self.spec_byte_size(),
    {
        match self {
            BleId::FromUuid16(_) => 2,
            BleId::FromUuid128(_) => 16,
        }
    }
}

impl PartialEq for BleId {
    fn eq(&self, other: &Self) -> (res: bool) {
        let a = self.to_uuid().as_uuid128_array();
        let b = other.to_uuid().as_uuid128_array();
        let mut i: usize = 0;
        while i < 16
            invariant
                i <= 16,
                a@ == self.uuid128(),
                b@ == other.uuid128(),
                forall|j: int| 0 <= j < i ==> a@[j] == b@[j],
            decreases 16 - i,
        {
            if a[i] != b[i] {
                return false;
            }
            i = i + 1;
        }
        assert(a@ =~= b@);
        true
    }
}

impl vstd::std_specs::cmp::PartialEqSpecImpl for BleId {
    open spec fn obeys_eq_spec() -> bool {
        true
    }

    open spec fn eq_spec(&self, other: &BleId) -> bool {
        self.uuid128() == other.uuid128()
    }
}

impl Eq for BleId {

}

/// Ids are equal exactly when their 128-bit forms are: a 16-bit id equals the
/// 128-bit id of the base UUID that holds it, and two 16-bit ids are equal
/// exactly when their numbers are.
pub proof fn lemma_id16_equals_its_uuid128(x: u16, y: u16)
    ensures
        uuid128_of(BleUuid::Uuid16(x)).len() == 16,
        forall|arr: [u8; 16]|
            arr@ == uuid128_of(BleUuid::Uuid16(x)) ==> #[trigger] BleId::FromUuid128(arr).uuid128()
                == BleId::FromUuid16(x).uuid128(),
        BleId::FromUuid16(x).uuid128() == BleId::FromUuid16(y).uuid128() <==> x == y,
{
    let a = BleId::FromUuid16(x).uuid128();
    let b = BleId::FromUuid16(y).uuid128();
    if a == b {
        assert(a[12] == b[12] && a[13] == b[13]);
        assert(x == (x / 256) * 256 + x % 256);
        assert(y == (y / 256) * 256 + y % 256);
    }
}

/// Comparing ids with `==` is an equivalence (reflexive, symmetric and
/// transitive), and two ids compare equal exactly when their 128-bit forms
/// are equal.
pub proof fn lemma_id_equality_is_equivalence(a: BleId, b: BleId, c: BleId)
    ensures
        a.eq_spec(&a),
        a.eq_spec(&b) ==> b.eq_spec(&a),
        a.eq_spec(&b) && b.eq_spec(&c) ==> a.eq_spec(&c),
        a.eq_spec(&b) <==> a.uuid128() == b.uuid128(),
{
}

} // verus!
