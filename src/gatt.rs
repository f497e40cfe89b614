//! The vendor's GATT identifiers and the search for the service and characteristic that
//! carry the protocol.
use vstd::prelude::*;

verus! {

/// The Bluetooth base UUID, into which 16-bit UUIDs are placed.
pub const BLUETOOTH_BASE_UUID: u128 = 0x00000000_0000_1000_8000_00805f9b34fb;

/// 16-bit UUID of the vendor service.
pub const JK_BMS_SERVICE: u16 = 0xffe0;

/// 16-bit UUID of the vendor characteristic.
pub const JK_BMS_CHARACTERISTIC: u16 = 0xffe1;

/// Characteristic property: write without response.
pub const WRITE_WITHOUT_RESPONSE: u8 = 0x04;

/// Characteristic property: notify.
pub const NOTIFY: u8 = 0x10;

/// The full UUID of the 16-bit UUID `short`: the base UUID with `short` in bits 96 to 111.
pub open spec fn uuid16(short: u16) -> u128 {
    (BLUETOOTH_BASE_UUID + short * 0x1_0000_0000_0000_0000_0000_0000) as u128
}

/// The full UUID of a 16-bit UUID.
pub fn uuid_from_u16(short: u16) -> (r: u128)
    ensures
        r == uuid16(short),
{
    BLUETOOTH_BASE_UUID + short as u128 * 0x1_0000_0000_0000_0000_0000_0000
}

/// A characteristic as the peripheral reports it: UUID and property flags.
#[derive(Clone, Copy, Debug, PartialEq, Eq, Structural)]
pub struct CharacteristicInfo {
    pub uuid: u128,
    pub properties: u8,
}

/// A service as the peripheral reports it: UUID and characteristics, in report order.
#[derive(Clone, Debug)]
pub struct ServiceInfo {
    pub uuid: u128,
    pub characteristics: Vec<CharacteristicInfo>,
}

/// Whether characteristic `c` has UUID `uuid` and all the property flags `properties`.
pub open spec fn characteristic_fits(c: CharacteristicInfo, uuid: u128, properties: u8) -> bool {
    c.uuid == uuid && c.properties & properties == properties
}

/// Whether `services` advertises the service `uuid`.
pub fn check_service(services: &[u128], uuid: u128) -> (r: bool)
    ensures
        r == exists|i: int| 0 <= i < services@.len() && services@[i] == uuid,
{
    let mut i: usize = 0;
    while i < services.len()
        invariant
            i <= services@.len(),
            forall|j: int| 0 <= j < i ==> services@[j] != uuid,
        decreases services@.len() - i,
    {
        if services[i] == uuid {
            return true;
        }
        i = i + 1;
    }
    false
}

/// The first service with UUID `uuid`, as an index into `services`.
pub fn find_service(services: &[ServiceInfo], uuid: u128) -> (r: Option<usize>)
    ensures
        match r {
            Some(i) => {
                &&& i < services@.len()
                &&& services@[i as int].uuid == uuid
                &&& forall|j: int| 0 <= j < i ==> services@[j].uuid != uuid
            },
            None => forall|j: int| 0 <= j < services@.len() ==> services@[j].uuid != uuid,
        },
{
    let mut i: usize = 0;
    while i < services.len()
        invariant
            i <= services@.len(),
            forall|j: int| 0 <= j < i ==> services@[j].uuid != uuid,
        decreases services@.len() - i,
    {
        if services[i].uuid == uuid {
            return Some(i);
        }
        i = i + 1;
    }
    None
}

/// Looks up characteristic `characteristic_uuid` with all the property flags
/// `properties` in the first service with UUID `service_uuid`; the result is the index of
/// that service and the index of the first fitting characteristic in it. Only that first
/// service is searched.
pub fn find_service_characteristic(
    services: &[ServiceInfo],
    service_uuid: u128,
    characteristic_uuid: u128,
    properties: u8,
) -> (r: Option<(usize, usize)>)
    ensures
        match r {
            Some((i, k)) => {
                &&& i < services@.len()
                &&& services@[i as int].uuid == service_uuid
                &&& forall|j: int| 0 <= j < i ==> services@[j].uuid != service_uuid
                &&& k < services@[i as int].characteristics@.len()
                &&& characteristic_fits(
                    services@[i as int].characteristics@[k as int],
                    characteristic_uuid,
                    properties,
                )
                &&& forall|j: int|
                    0 <= j < k ==> !characteristic_fits(
                        #[trigger] services@[i as int].characteristics@[j],
                        characteristic_uuid,
                        properties,
                    )
            },
            None => forall|i: int|
                0 <= i < services@.len() && services@[i].uuid == service_uuid && (forall|j: int|
                    0 <= j < i ==> services@[j].uuid != service_uuid) ==> forall|k: int|
                    0 <= k < services@[i].characteristics@.len() ==> !characteristic_fits(
                        #[trigger] services@[i].characteristics@[k],
                        characteristic_uuid,
                        properties,
                    ),
        },
{
    match find_service(services, service_uuid) {
        None => None,
        Some(i) => {
            let chars = &services[i].characteristics;
            let mut k: usize = 0;
            while k < chars.len()
                invariant
                    k <= chars@.len(),
                    i < services@.len(),
                    chars@ == services@[i as int].characteristics@,
                    services@[i as int].uuid == service_uuid,
                    forall|j: int| 0 <= j < i ==> services@[j].uuid != service_uuid,
                    forall|j: int|
                        0 <= j < k ==> !characteristic_fits(
                            #[trigger] chars@[j],
                            characteristic_uuid,
                            properties,
                        ),
                decreases chars@.len() - k,
            {
                let c = chars[k];
                if c.uuid == characteristic_uuid && c.properties & properties == properties {
                    return Some((i, k));
                }
                k = k + 1;
            }
            proof {
                assert forall|i2: int|
                    0 <= i2 < services@.len() && services@[i2].uuid == service_uuid && (forall|
                        j: int,
                    |
                        0 <= j < i2 ==> services@[j].uuid != service_uuid) implies i2 == i by {
                    if i2 < i {
                    } else if i2 > i {
                        assert(services@[i as int].uuid == service_uuid);
                    }
                }
            }
            None
        },
    }
}

} // verus!
