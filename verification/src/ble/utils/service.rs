use vstd::prelude::*;

use crate::ble::utils::ble_error::BleError;
use crate::ble::utils::ble_id::BleId;

verus! {

/// The most bytes an advertisement payload holds.
pub const MAX_ADV_PAYLOAD_SIZE: usize = 31;
/// The bytes that identify a field of the advertisement payload.
pub const PAYLOAD_FIELD_IDENTIFIER_SIZE: usize = 2;

/// Characteristic property: the value may be broadcast.
pub const PROPERTY_BROADCAST: u16 = 0x0001;
/// Characteristic property: clients may read the value.
pub const PROPERTY_READ: u16 = 0x0002;
/// Characteristic property: clients may write without response.
pub const PROPERTY_WRITE_NO_RSP: u16 = 0x0004;
/// Characteristic property: clients may write the value.
pub const PROPERTY_WRITE: u16 = 0x0008;
/// Characteristic property: the value is notified to clients.
pub const PROPERTY_NOTIFY: u16 = 0x0010;
/// Characteristic property: the value is indicated to clients.
pub const PROPERTY_INDICATE: u16 = 0x0020;
/// Characteristic property: reading needs an encrypted link.
pub const PROPERTY_READ_ENC: u16 = 0x0200;
/// Characteristic property: reading needs an authenticated link.
pub const PROPERTY_READ_AUTHEN: u16 = 0x0400;
/// Characteristic property: reading needs the server's authorization.
pub const PROPERTY_READ_AUTHOR: u16 = 0x0800;
/// Characteristic property: writing needs an encrypted link.
pub const PROPERTY_WRITE_ENC: u16 = 0x1000;
/// Characteristic property: writing needs an authenticated link.
pub const PROPERTY_WRITE_AUTHEN: u16 = 0x2000;
/// Characteristic property: writing needs the server's authorization.
pub const PROPERTY_WRITE_AUTHOR: u16 = 0x4000;

/// Descriptor property: clients may read the value.
pub const DESCRIPTOR_READ: u8 = 0x01;
/// Descriptor property: clients may write the value.
pub const DESCRIPTOR_WRITE: u8 = 0x02;
/// Descriptor property: reading needs an encrypted link.
pub const DESCRIPTOR_READ_ENC: u8 = 0x04;
/// Descriptor property: reading needs an authenticated link.
pub const DESCRIPTOR_READ_AUTHEN: u8 = 0x08;
/// Descriptor property: reading needs the server's authorization.
pub const DESCRIPTOR_READ_AUTHOR: u8 = 0x10;
/// Descriptor property: writing needs an encrypted link.
pub const DESCRIPTOR_WRITE_ENC: u8 = 0x20;
/// Descriptor property: writing needs an authenticated link.
pub const DESCRIPTOR_WRITE_AUTHEN: u8 = 0x40;
/// Descriptor property: writing needs the server's authorization.
pub const DESCRIPTOR_WRITE_AUTHOR: u8 = 0x80;

/// A BLE descriptor: its id, properties and data.
#[derive(Debug, Clone)]
pub struct Descriptor {
    pub id: BleId,
    pub properties: u8,
    pub data: Vec<u8>,
}

/// A BLE characteristic: its id, the properties that say how clients may use
/// it, its data and its descriptors.
#[derive(Clone)]
pub struct Characteristic {
    pub id: BleId,
    pub properties: u16,
    pub data: Vec<u8>,
    pub descriptors: Vec<Descriptor>,
}

/// A BLE service: its id, the data it advertises, and its characteristics.
#[derive(Clone)]
pub struct Service {
    pub id: BleId,
    pub data: Vec<u8>,
    pub characteristics: Vec<Characteristic>,
}

/// The bytes a service with `data_len` bytes of data and an id of
/// `id_size` bytes takes in an advertisement.
pub open spec fn advertised_size(data_len: int, id_size: int) -> int {
    let header_bytes = if data_len == 0 {
        PAYLOAD_FIELD_IDENTIFIER_SIZE as int
    } else {
        PAYLOAD_FIELD_IDENTIFIER_SIZE * 2
    };
    data_len + header_bytes + id_size
}

impl Service {
    /// A service with no characteristics, or `ServiceTooBig` when its id and
    /// data do not fit in an advertisement.
    pub fn new(id: &BleId, data: Vec<u8>) -> (res: Result<Service, BleError>)
        ensures
            advertised_size(data@.len() as int, id.spec_byte_size() as int) > MAX_ADV_PAYLOAD_SIZE
                ==> res matches Err(BleError::ServiceTooBig),
            advertised_size(data@.len() as int, id.spec_byte_size() as int) <= MAX_ADV_PAYLOAD_SIZE
                ==> (res matches Ok(s) && s.id == *id && s.data@ == data@
                && s.characteristics@.len() == 0),
    {
        let header_bytes = if data.len() == 0 {
            PAYLOAD_FIELD_IDENTIFIER_SIZE
        } else {
            PAYLOAD_FIELD_IDENTIFIER_SIZE * 2
        };
        let fixed = header_bytes + id.byte_size();
        if data.len() > MAX_ADV_PAYLOAD_SIZE - fixed {
            Err(BleError::ServiceTooBig)
        } else {
            Ok(Service { id: *id, data, characteristics: Vec::new() })
        }
    }

    /// Adds a characteristic to the service.
    pub fn add_characteristic(&mut self, characteristic: Characteristic) -> (res: &mut Self)
        ensures
            res.id == old(self).id,
            res.data == old(self).data,
            res.characteristics@ == old(self).characteristics@.push(characteristic),
            *final(self) == *final(res),
    {
        self.characteristics.push(characteristic);
        self
    }
}

/// The property set with `flag` added (`value`) or removed.
pub open spec fn toggled16(properties: u16, value: bool, flag: u16) -> u16 {
    if value {
        properties | flag
    } else {
        properties & !flag
    }
}

/// The property set with `flag` added (`value`) or removed.
pub open spec fn toggled8(properties: u8, value: bool, flag: u8) -> u8 {
    if value {
        properties | flag
    } else {
        properties & !flag
    }
}

/// The position of the first service whose id equals `id` (as 128-bit
/// UUIDs), if any.
pub fn find_service(services: &Vec<Service>, id: &BleId) -> (res: Option<usize>)
    ensures
        match res {
            Some(k) => k < services@.len() && services@[k as int].id.uuid128() == id.uuid128()
                && forall|j: int| 0 <= j < k ==> services@[j].id.uuid128() != id.uuid128(),
            None => forall|j: int|
                0 <= j < services@.len() ==> services@[j].id.uuid128() != id.uuid128(),
        },
{
    let mut i: usize = 0;
    while i < services.len()
        invariant
            i <= services@.len(),
            forall|j: int| 0 <= j < i ==> services@[j].id.uuid128() != id.uuid128(),
        decreases services@.len() - i,
    {
        if services[i].id == *id {
            return Some(i);
        }
        i = i + 1;
    }
    None
}

impl Characteristic {
    /// Whether clients may subscribe to notifications of the data.
    pub fn is_notifiable(&self) -> (res: bool)
        ensures
            res == (self.properties & PROPERTY_NOTIFY != 0),
    {
        self.properties & PROPERTY_NOTIFY != 0
    }

    /// A characteristic with no properties and no descriptors.
    pub fn new(id: BleId, data: Vec<u8>) -> (res: Self)
        ensures
            res.id == id,
            res.properties == 0,
            res.data@ == data@,
            res.descriptors@.len() == 0,
    {
        Characteristic { id, properties: 0, data, descriptors: Vec::new() }
    }

    /// Adds a descriptor to the characteristic.
    pub fn add_descriptor(&mut self, descriptor: Descriptor) -> (res: &mut Self)
        ensures
            res.id == old(self).id,
            res.properties == old(self).properties,
            res.data == old(self).data,
            res.descriptors@ == old(self).descriptors@.push(descriptor),
            *final(self) == *final(res),
    {
        self.descriptors.push(descriptor);
        self
    }

    /// The characteristic with `flag` added or removed from its properties.
    pub open spec fn with_flag(self, value: bool, flag: u16) -> Self {
        Characteristic { properties: toggled16(self.properties, value, flag), ..self }
    }

    /// Adds (`value`) or removes a property.
    fn toggle(&mut self, value: bool, flag: u16) -> (res: &mut Self)
        ensures
            *res == old(self).with_flag(value, flag),
            *final(self) == *final(res),
    {
        if value {
            self.properties = self.properties | flag;
        } else {
            self.properties = self.properties & !flag;
        }
        self
    }

    /// Lets clients write the data (or stops letting them).
    pub fn writable(&mut self, value: bool) -> (res: &mut Self)
        ensures
            *res == old(self).with_flag(value, PROPERTY_WRITE),
            *final(self) == *final(res),
    {
        self.toggle(value, PROPERTY_WRITE)
    }

    /// Lets clients read the data.
    pub fn readeable(&mut self, value: bool) -> (res: &mut Self)
        ensures
            *res == old(self).with_flag(value, PROPERTY_READ),
            *final(self) == *final(res),
    {
        self.toggle(value, PROPERTY_READ)
    }

    /// Publishes the data to clients without waiting for acknowledgement.
    pub fn notifiable(&mut self, value: bool) -> (res: &mut Self)
        ensures
            *res == old(self).with_flag(value, PROPERTY_NOTIFY),
            *final(self) == *final(res),
    {
        self.toggle(value, PROPERTY_NOTIFY)
    }

    /// Lets clients read the data over an encrypted link only.
    pub fn readeable_enc(&mut self, value: bool) -> (res: &mut Self)
        ensures
            *res == old(self).with_flag(value, PROPERTY_READ_ENC),
            *final(self) == *final(res),
    {
        self.toggle(value, PROPERTY_READ_ENC)
    }

    /// Lets clients read the data over an authenticated link only.
    pub fn readeable_authen(&mut self, value: bool) -> (res: &mut Self)
        ensures
            *res == old(self).with_flag(value, PROPERTY_READ_AUTHEN),
            *final(self) == *final(res),
    {
        self.toggle(value, PROPERTY_READ_AUTHEN)
    }

    /// Lets clients read the data when the server authorizes it.
    pub fn readeable_author(&mut self, value: bool) -> (res: &mut Self)
        ensures
            *res == old(self).with_flag(value, PROPERTY_READ_AUTHOR),
            *final(self) == *final(res),
    {
        self.toggle(value, PROPERTY_READ_AUTHOR)
    }

    /// Lets clients write the data without waiting for a response.
    pub fn writeable_no_rsp(&mut self, value: bool) -> (res: &mut Self)
        ensures
            *res == old(self).with_flag(value, PROPERTY_WRITE_NO_RSP),
            *final(self) == *final(res),
    {
        self.toggle(value, PROPERTY_WRITE_NO_RSP)
    }

    /// Lets clients write the data over an encrypted link only.
    pub fn writeable_enc(&mut self, value: bool) -> (res: &mut Self)
        ensures
            *res == old(self).with_flag(value, PROPERTY_WRITE_ENC),
            *final(self) == *final(res),
    {
        self.toggle(value, PROPERTY_WRITE_ENC)
    }

    /// Lets clients write the data over an authenticated link only.
    pub fn writeable_authen(&mut self, value: bool) -> (res: &mut Self)
        ensures
            *res == old(self).with_flag(value, PROPERTY_WRITE_AUTHEN),
            *final(self) == *final(res),
    {
        self.toggle(value, PROPERTY_WRITE_AUTHEN)
    }

    /// Lets clients write the data when the server authorizes it.
    pub fn writeable_author(&mut self, value: bool) -> (res: &mut Self)
        ensures
            *res == old(self).with_flag(value, PROPERTY_WRITE_AUTHOR),
            *final(self) == *final(res),
    {
        self.toggle(value, PROPERTY_WRITE_AUTHOR)
    }

    /// Lets the server broadcast the data.
    pub fn broadcastable(&mut self, value: bool) -> (res: &mut Self)
        ensures
            *res == old(self).with_flag(value, PROPERTY_BROADCAST),
            *final(self) == *final(res),
    {
        self.toggle(value, PROPERTY_BROADCAST)
    }

    /// Publishes the data to clients and waits for acknowledgement.
    pub fn indicatable(&mut self, value: bool) -> (res: &mut Self)
        ensures
            *res == old(self).with_flag(value, PROPERTY_INDICATE),
            *final(self) == *final(res),
    {
        self.toggle(value, PROPERTY_INDICATE)
    }

    /// Replaces the data.
    pub fn update_data(&mut self, data: Vec<u8>) -> (res: &mut Self)
        ensures
            *res == (Characteristic { data, ..*old(self) }),
            *final(self) == *final(res),
    {
        self.data = data;
        self
    }
}

impl Descriptor {
    /// A descriptor with no properties.
    pub fn new(id: BleId, data: Vec<u8>) -> (res: Self)
        ensures
            res.id == id,
            res.properties == 0,
            res.data@ == data@,
    {
        Descriptor { id, properties: 0, data }
    }

    /// The properties to hand to the BLE stack, or `BleError::PropertiesError`
    /// when the descriptor has none. Every bit of a byte is a descriptor
    /// property, so no set of bits is invalid.
    pub fn get_properties(&self) -> (res: Result<u8, BleError>)
        ensures
            self.properties == 0 ==> res == Err::<u8, BleError>(BleError::PropertiesError),
            self.properties != 0 ==> res == Ok::<u8, BleError>(self.properties),
    {
        if self.properties == 0 {
            Err(BleError::PropertiesError)
        } else {
            Ok(self.properties)
        }
    }

    /// The descriptor with `flag` added or removed from its properties.
    pub open spec fn with_flag(self, value: bool, flag: u8) -> Self {
        Descriptor { properties: toggled8(self.properties, value, flag), ..self }
    }

    /// Adds (`value`) or removes a property.
    fn toggle(&mut self, value: bool, flag: u8) -> (res: &mut Self)
        ensures
            *res == old(self).with_flag(value, flag),
            *final(self) == *final(res),
    {
        if value {
            self.properties = self.properties | flag;
        } else {
            self.properties = self.properties & !flag;
        }
        self
    }

    /// Lets clients write the data.
    pub fn writable(&mut self, value: bool) -> (res: &mut Self)
        ensures
            *res == old(self).with_flag(value, DESCRIPTOR_WRITE),
            *final(self) == *final(res),
    {
        self.toggle(value, DESCRIPTOR_WRITE)
    }

    /// Lets clients read the data.
    pub fn readeable(&mut self, value: bool) -> (res: &mut Self)
        ensures
            *res == old(self).with_flag(value, DESCRIPTOR_READ),
            *final(self) == *final(res),
    {
        self.toggle(value, DESCRIPTOR_READ)
    }

    /// Lets clients read the data over an encrypted link only.
    pub fn readeable_enc(&mut self, value: bool) -> (res: &mut Self)
        ensures
            *res == old(self).with_flag(value, DESCRIPTOR_READ_ENC),
            *final(self) == *final(res),
    {
        self.toggle(value, DESCRIPTOR_READ_ENC)
    }

    /// Lets clients read the data over an authenticated link only.
    pub fn readeable_authen(&mut self, value: bool) -> (res: &mut Self)
        ensures
            *res == old(self).with_flag(value, DESCRIPTOR_READ_AUTHEN),
            *final(self) == *final(res),
    {
        self.toggle(value, DESCRIPTOR_READ_AUTHEN)
    }

    /// Lets clients read the data when the server authorizes it.
    pub fn readeable_author(&mut self, value: bool) -> (res: &mut Self)
        ensures
            *res == old(self).with_flag(value, DESCRIPTOR_READ_AUTHOR),
            *final(self) == *final(res),
    {
        self.toggle(value, DESCRIPTOR_READ_AUTHOR)
    }

    /// Lets clients write the data over an encrypted link only.
    pub fn writeable_enc(&mut self, value: bool) -> (res: &mut Self)
        ensures
            *res == old(self).with_flag(value, DESCRIPTOR_WRITE_ENC),
            *final(self) == *final(res),
    {
        self.toggle(value, DESCRIPTOR_WRITE_ENC)
    }

    /// Lets clients write the data over an authenticated link only.
    pub fn writeable_authen(&mut self, value: bool) -> (res: &mut Self)
        ensures
            *res == old(self).with_flag(value, DESCRIPTOR_WRITE_AUTHEN),
            *final(self) == *final(res),
    {
        self.toggle(value, DESCRIPTOR_WRITE_AUTHEN)
    }

    /// Lets clients write the data when the server authorizes it.
    pub fn writeable_author(&mut self, value: bool) -> (res: &mut Self)
        ensures
            *res == old(self).with_flag(value, DESCRIPTOR_WRITE_AUTHOR),
            *final(self) == *final(res),
    {
        self.toggle(value, DESCRIPTOR_WRITE_AUTHOR)
    }
}

/// Adding a property and then removing it takes it out without touching the
/// others; properties toggled are independent of one another.
pub proof fn lemma_property_toggles(properties: u16, flag: u16, other: u16)
    requires
        flag & other == 0,
    ensures
        toggled16(toggled16(properties, true, flag), false, flag) == properties & !flag,
        toggled16(properties, true, flag) & flag == flag,
        toggled16(properties, false, flag) & flag == 0,
        toggled16(properties, true, flag) & other == properties & other,
        toggled16(properties, false, flag) & other == properties & other,
{
    assert((properties | flag) & !flag == properties & !flag) by (bit_vector);
    assert((properties | flag) & flag == flag) by (bit_vector);
    assert((properties & !flag) & flag == 0) by (bit_vector);
    assert(flag & other == 0 ==> (properties | flag) & other == properties & other) by (bit_vector);
    assert(flag & other == 0 ==> (properties & !flag) & other == properties & other)
        by (bit_vector);
}

} // verus!
