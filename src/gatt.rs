use vstd::prelude::*;

verus! {

/// The BLE-MIDI service identifier, 03B80E5A-EDE8-4B33-A751-6CE34EC4C700.
pub const MIDI_SERVICE_UUID: u128 = 0x03B80E5A_EDE8_4B33_A751_6CE34EC4C700;

/// The BLE-MIDI data characteristic identifier, 7772E5DB-3868-4112-A1A9-F2669D106BF3.
pub const MIDI_CHARACTERISTIC_UUID: u128 = 0x7772E5DB_3868_4112_A1A9_F2669D106BF3;

/// What a client may do with a characteristic.
#[derive(Debug, Clone, Copy, PartialEq, Eq, Structural)]
pub struct CharacteristicProperties {
    pub read: bool,
    pub write: bool,
    pub write_without_response: bool,
    pub notify: bool,
}

/// What the attribute layer lets a client access.
#[derive(Debug, Clone, Copy, PartialEq, Eq, Structural)]
pub struct AttributePermissions {
    pub readable: bool,
    pub writeable: bool,
}

/// A descriptor of a characteristic.
#[derive(Debug, Clone)]
pub struct GattDescriptor {
    pub uuid: u128,
    pub value: Option<Vec<u8>>,
}

/// A characteristic of a service, with its cached value.
#[derive(Debug, Clone)]
pub struct GattCharacteristic {
    pub uuid: u128,
    pub properties: CharacteristicProperties,
    pub permissions: AttributePermissions,
    pub value: Option<Vec<u8>>,
    pub descriptors: Vec<GattDescriptor>,
}

/// A service as the peripheral role registers it with the stack.
#[derive(Debug, Clone)]
pub struct GattService {
    pub uuid: u128,
    pub primary: bool,
    pub characteristics: Vec<GattCharacteristic>,
}

/// `i` is the first position of `target` in `s`.
pub open spec fn is_first_index(s: Seq<u128>, target: u128, i: int) -> bool {
    0 <= i < s.len() && s[i] == target && forall|j: int| 0 <= j < i ==> s[j] != target
}

/// The identifiers of a service's characteristics, in order.
pub open spec fn characteristic_uuids(cs: Seq<GattCharacteristic>) -> Seq<u128> {
    cs.map_values(|c: GattCharacteristic| c.uuid)
}

/// The position of the first identifier in `uuids` equal to `target`.
pub fn first_index_of(uuids: &Vec<u128>, target: u128) -> (r: Option<usize>)
    ensures
        r matches Some(i) ==> is_first_index(uuids@, target, i as int),
        r is None ==> forall|j: int| 0 <= j < uuids@.len() ==> uuids@[j] != target,
{
    let mut i: usize = 0;
    while i < uuids.len()
        invariant
            i <= uuids@.len(),
            forall|j: int| 0 <= j < i ==> uuids@[j] != target,
        decreases uuids@.len() - i,
    {
        if uuids[i] == target {
            return Some(i);
        }
        i += 1;
    }
    None
}

impl GattService {
    /// The position of the first characteristic whose identifier is `uuid`.
    pub open spec fn find_characteristic_spec(&self, uuid: u128) -> Option<int> {
        if exists|i: int| is_first_index(characteristic_uuids(self.characteristics@), uuid, i) {
            Some(
                choose|i: int| is_first_index(characteristic_uuids(self.characteristics@), uuid, i),
            )
        } else {
            None
        }
    }

    /// The position of the first characteristic whose identifier is `uuid`.
    pub fn find_characteristic(&self, uuid: u128) -> (r: Option<usize>)
        ensures
            r matches Some(i) ==> is_first_index(
                characteristic_uuids(self.characteristics@),
                uuid,
                i as int,
            ),
            r is None ==> forall|j: int|
                0 <= j < self.characteristics@.len() ==> self.characteristics@[j].uuid != uuid,
            r matches Some(i) ==> self.find_characteristic_spec(uuid) == Some(i as int),
            r is None ==> self.find_characteristic_spec(uuid) is None,
    {
        let mut i: usize = 0;
        while i < self.characteristics.len()
            invariant
                i <= self.characteristics@.len(),
                forall|j: int| 0 <= j < i ==> self.characteristics@[j].uuid != uuid,
            decreases self.characteristics@.len() - i,
        {
            if self.characteristics[i].uuid == uuid {
                proof {
                    let u = characteristic_uuids(self.characteristics@);
                    assert(is_first_index(u, uuid, i as int));
                    let c = choose|k: int| is_first_index(u, uuid, k);
                    assert(u[c] == uuid && u[i as int] == uuid);
                    assert(c == i);
                }
                return Some(i);
            }
            i += 1;
        }
        proof {
            let u = characteristic_uuids(self.characteristics@);
            assert forall|k: int| !is_first_index(u, uuid, k) by {
                if 0 <= k < u.len() {
                    assert(u[k] == self.characteristics@[k].uuid);
                }
            }
        }
        None
    }
}

/// The BLE-MIDI service: primary, with one data characteristic that can be
/// read, written without response and subscribed to, and no cached value.
pub fn midi_service() -> (r: GattService)
    ensures
        r.uuid == MIDI_SERVICE_UUID,
        r.primary,
        r.characteristics@.len() == 1,
        r.characteristics@[0].uuid == MIDI_CHARACTERISTIC_UUID,
        r.characteristics@[0].properties == (CharacteristicProperties {
            read: true,
            write: false,
            write_without_response: true,
            notify: true,
        }),
        r.characteristics@[0].permissions == (AttributePermissions {
            readable: true,
            writeable: true,
        }),
        r.characteristics@[0].value is None,
        r.characteristics@[0].descriptors@.len() == 0,
{
    let data = GattCharacteristic {
        uuid: MIDI_CHARACTERISTIC_UUID,
        properties: CharacteristicProperties {
            read: true,
            write: false,
            write_without_response: true,
            notify: true,
        },
        permissions: AttributePermissions { readable: true, writeable: true },
        value: None,
        descriptors: Vec::new(),
    };
    let mut characteristics: Vec<GattCharacteristic> = Vec::new();
    characteristics.push(data);
    GattService { uuid: MIDI_SERVICE_UUID, primary: true, characteristics }
}

} // verus!
