//! Device name and GATT UUIDs used by the Chessnut Move protocol.
//!
//! Custom Bluetooth adapters can match discovered characteristics with these
//! constants or with the typed [`Characteristic`] values.

use vstd::prelude::*;

verus! {

/// Default Bluetooth advertising name of a Chessnut Move board.
pub const DEVICE_NAME: &'static str = "Chessnut Move";

/// UUID of the service containing realtime position notifications.
pub const POSITION_SERVICE_UUID: &'static str = "1b7e8261-2877-41c3-b46e-cf057c562023";

/// UUID of the characteristic that emits realtime packed positions.
pub const POSITION_NOTIFICATION_UUID: &'static str = "1b7e8262-2877-41c3-b46e-cf057c562023";

/// UUID of the service containing commands and command responses.
pub const COMMAND_SERVICE_UUID: &'static str = "1b7e8271-2877-41c3-b46e-cf057c562023";

/// UUID of the characteristic to which commands are written.
pub const COMMAND_WRITE_UUID: &'static str = "1b7e8272-2877-41c3-b46e-cf057c562023";

/// UUID of the characteristic that emits command and control responses.
pub const COMMAND_RESPONSE_UUID: &'static str = "1b7e8273-2877-41c3-b46e-cf057c562023";

/// A GATT characteristic used by the Chessnut Move protocol.
#[derive(Clone, Copy, Debug, PartialEq, Eq, Structural, Hash)]
pub enum Characteristic {
    /// Characteristic that emits realtime packed positions.
    PositionNotification,
    /// Characteristic to which encoded commands are written.
    CommandWrite,
    /// Characteristic that emits query and session-control responses.
    CommandResponse,
}

/// The 128-bit UUID of a characteristic.
pub open spec fn characteristic_uuid(characteristic: Characteristic) -> u128 {
    match characteristic {
        Characteristic::PositionNotification => 0x1b7e8262_2877_41c3_b46e_cf057c562023,
        Characteristic::CommandWrite => 0x1b7e8272_2877_41c3_b46e_cf057c562023,
        Characteristic::CommandResponse => 0x1b7e8273_2877_41c3_b46e_cf057c562023,
    }
}

/// The value of a hexadecimal digit (either case), or `None` for any other
/// character.
pub open spec fn hex_digit_value(c: char) -> Option<int> {
    let code = c as int;
    if 48 <= code <= 57 {
        Some(code - 48)
    } else if 97 <= code <= 102 {
        Some(code - 87)
    } else if 65 <= code <= 70 {
        Some(code - 55)
    } else {
        None
    }
}

/// The number that a UUID text denotes: its hexadecimal digits read as one
/// base-16 numeral, the hyphens between groups left out. `None` when the text
/// holds any other character.
pub open spec fn uuid_text_value(text: Seq<char>) -> Option<int>
    decreases text.len(),
{
    if text.len() == 0 {
        Some(0)
    } else {
        match uuid_text_value(text.drop_last()) {
            None => None,
            Some(prefix) => if text.last() == '-' {
                Some(prefix)
            } else {
                match hex_digit_value(text.last()) {
                    Some(digit) => Some(prefix * 16 + digit),
                    None => None,
                }
            },
        }
    }
}

/// The canonical UUID text of a characteristic.
pub open spec fn characteristic_uuid_text(characteristic: Characteristic) -> Seq<char> {
    match characteristic {
        Characteristic::PositionNotification => POSITION_NOTIFICATION_UUID@,
        Characteristic::CommandWrite => COMMAND_WRITE_UUID@,
        Characteristic::CommandResponse => COMMAND_RESPONSE_UUID@,
    }
}

impl Characteristic {
    /// Returns the canonical UUID string for this characteristic.
    pub fn uuid(self) -> (uuid: &'static str)
        ensures
            uuid@ == characteristic_uuid_text(self),
    {
        match self {
            Characteristic::PositionNotification => POSITION_NOTIFICATION_UUID,
            Characteristic::CommandWrite => COMMAND_WRITE_UUID,
            Characteristic::CommandResponse => COMMAND_RESPONSE_UUID,
        }
    }

    /// Returns the UUID as a `u128`, useful for BLE libraries with typed UUIDs.
    pub fn uuid_u128(self) -> (uuid: u128)
        ensures
            uuid == characteristic_uuid(self),
    {
        match self {
            Characteristic::PositionNotification => 0x1b7e8262_2877_41c3_b46e_cf057c562023,
            Characteristic::CommandWrite => 0x1b7e8272_2877_41c3_b46e_cf057c562023,
            Characteristic::CommandResponse => 0x1b7e8273_2877_41c3_b46e_cf057c562023,
        }
    }
}

/// Finds a characteristic among discovered characteristics, given by their
/// 128-bit UUIDs: the position of the first one with its UUID, if any.
pub fn find_characteristic(discovered: &[u128], characteristic: Characteristic) -> (found: Option<usize>)
    ensures
        match found {
            Some(index) => index < discovered@.len() && discovered@[index as int] == characteristic_uuid(characteristic)
                && forall|j: int| 0 <= j < index ==> discovered@[j] != characteristic_uuid(characteristic),
            None => forall|j: int| 0 <= j < discovered@.len() ==> discovered@[j] != characteristic_uuid(characteristic),
        },
{
    let uuid = characteristic.uuid_u128();
    let mut index: usize = 0;
    while index < discovered.len()
        invariant
            index <= discovered@.len(),
            uuid == characteristic_uuid(characteristic),
            forall|j: int| 0 <= j < index ==> discovered@[j] != uuid,
        decreases discovered@.len() - index,
    {
        if discovered[index] == uuid {
            return Some(index);
        }
        index += 1;
    }
    None
}

/// Distinct characteristics have distinct UUIDs.
pub proof fn lemma_characteristic_uuids_distinct(a: Characteristic, b: Characteristic)
    ensures
        characteristic_uuid(a) == characteristic_uuid(b) <==> a == b,
{
}

/// Reading one more character of a UUID text.
proof fn lemma_uuid_text_step(text: Seq<char>, k: int, prefix: int)
    requires
        0 < k <= text.len(),
        uuid_text_value(text.take(k - 1)) == Some(prefix),
    ensures
        uuid_text_value(text.take(k)) == (if text[k - 1] == '-' {
            Some(prefix)
        } else {
            match hex_digit_value(text[k - 1]) {
                Some(digit) => Some(prefix * 16 + digit),
                None => None,
            }
        }),
{
    assert(text.take(k).drop_last() =~= text.take(k - 1));
}

/// The text of the PositionNotification UUID denotes its integer.
proof fn lemma_position_notification_text()
    ensures
        uuid_text_value(POSITION_NOTIFICATION_UUID@) == Some(0x1b7e8262_2877_41c3_b46e_cf057c562023_int),
{
    reveal_strlit("1b7e8262-2877-41c3-b46e-cf057c562023");
    let text = POSITION_NOTIFICATION_UUID@;
    assert(text.take(0) =~= Seq::<char>::empty());
    lemma_uuid_text_step(text, 1, 0);
    lemma_uuid_text_step(text, 2, 1);
    lemma_uuid_text_step(text, 3, 27);
    lemma_uuid_text_step(text, 4, 439);
    lemma_uuid_text_step(text, 5, 7038);
    lemma_uuid_text_step(text, 6, 112616);
    lemma_uuid_text_step(text, 7, 1801858);
    lemma_uuid_text_step(text, 8, 28829734);
    lemma_uuid_text_step(text, 9, 461275746);
    lemma_uuid_text_step(text, 10, 461275746);
    lemma_uuid_text_step(text, 11, 7380411938);
    lemma_uuid_text_step(text, 12, 118086591016);
    lemma_uuid_text_step(text, 13, 1889385456263);
    lemma_uuid_text_step(text, 14, 30230167300215);
    lemma_uuid_text_step(text, 15, 30230167300215);
    lemma_uuid_text_step(text, 16, 483682676803444);
    lemma_uuid_text_step(text, 17, 7738922828855105);
    lemma_uuid_text_step(text, 18, 123822765261681692);
    lemma_uuid_text_step(text, 19, 1981164244186907075);
    lemma_uuid_text_step(text, 20, 1981164244186907075);
    lemma_uuid_text_step(text, 21, 31698627906990513211);
    lemma_uuid_text_step(text, 22, 507178046511848211380);
    lemma_uuid_text_step(text, 23, 8114848744189571382086);
    lemma_uuid_text_step(text, 24, 129837579907033142113390);
    lemma_uuid_text_step(text, 25, 129837579907033142113390);
    lemma_uuid_text_step(text, 26, 2077401278512530273814252);
    lemma_uuid_text_step(text, 27, 33238420456200484381028047);
    lemma_uuid_text_step(text, 28, 531814727299207750096448752);
    lemma_uuid_text_step(text, 29, 8509035636787324001543180037);
    lemma_uuid_text_step(text, 30, 136144570188597184024690880599);
    lemma_uuid_text_step(text, 31, 2178313123017554944395054089596);
    lemma_uuid_text_step(text, 32, 34853009968280879110320865433541);
    lemma_uuid_text_step(text, 33, 557648159492494065765133846936662);
    lemma_uuid_text_step(text, 34, 8922370551879905052242141550986594);
    lemma_uuid_text_step(text, 35, 142757928830078480835874264815785504);
    lemma_uuid_text_step(text, 36, 2284126861281255693373988237052568066);
    assert(text.take(36) =~= text);
}

/// The text of the CommandWrite UUID denotes its integer.
proof fn lemma_command_write_text()
    ensures
        uuid_text_value(COMMAND_WRITE_UUID@) == Some(0x1b7e8272_2877_41c3_b46e_cf057c562023_int),
{
    reveal_strlit("1b7e8272-2877-41c3-b46e-cf057c562023");
    let text = COMMAND_WRITE_UUID@;
    assert(text.take(0) =~= Seq::<char>::empty());
    lemma_uuid_text_step(text, 1, 0);
    lemma_uuid_text_step(text, 2, 1);
    lemma_uuid_text_step(text, 3, 27);
    lemma_uuid_text_step(text, 4, 439);
    lemma_uuid_text_step(text, 5, 7038);
    lemma_uuid_text_step(text, 6, 112616);
    lemma_uuid_text_step(text, 7, 1801858);
    lemma_uuid_text_step(text, 8, 28829735);
    lemma_uuid_text_step(text, 9, 461275762);
    lemma_uuid_text_step(text, 10, 461275762);
    lemma_uuid_text_step(text, 11, 7380412194);
    lemma_uuid_text_step(text, 12, 118086595112);
    lemma_uuid_text_step(text, 13, 1889385521799);
    lemma_uuid_text_step(text, 14, 30230168348791);
    lemma_uuid_text_step(text, 15, 30230168348791);
    lemma_uuid_text_step(text, 16, 483682693580660);
    lemma_uuid_text_step(text, 17, 7738923097290561);
    lemma_uuid_text_step(text, 18, 123822769556648988);
    lemma_uuid_text_step(text, 19, 1981164312906383811);
    lemma_uuid_text_step(text, 20, 1981164312906383811);
    lemma_uuid_text_step(text, 21, 31698629006502140987);
    lemma_uuid_text_step(text, 22, 507178064104034255796);
    lemma_uuid_text_step(text, 23, 8114849025664548092742);
    lemma_uuid_text_step(text, 24, 129837584410632769483886);
    lemma_uuid_text_step(text, 25, 129837584410632769483886);
    lemma_uuid_text_step(text, 26, 2077401350570124311742188);
    lemma_uuid_text_step(text, 27, 33238421609121988987875023);
    lemma_uuid_text_step(text, 28, 531814745745951823806000368);
    lemma_uuid_text_step(text, 29, 8509035931935229180896005893);
    lemma_uuid_text_step(text, 30, 136144574910963666894336094295);
    lemma_uuid_text_step(text, 31, 2178313198575418670309377508732);
    lemma_uuid_text_step(text, 32, 34853011177206698724950040139717);
    lemma_uuid_text_step(text, 33, 557648178835307179599200642235478);
    lemma_uuid_text_step(text, 34, 8922370861364914873587210275767650);
    lemma_uuid_text_step(text, 35, 142757933781838637977395364412282400);
    lemma_uuid_text_step(text, 36, 2284126940509418207638325830596518402);
    assert(text.take(36) =~= text);
}

/// The text of the CommandResponse UUID denotes its integer.
proof fn lemma_command_response_text()
    ensures
        uuid_text_value(COMMAND_RESPONSE_UUID@) == Some(0x1b7e8273_2877_41c3_b46e_cf057c562023_int),
{
    reveal_strlit("1b7e8273-2877-41c3-b46e-cf057c562023");
    let text = COMMAND_RESPONSE_UUID@;
    assert(text.take(0) =~= Seq::<char>::empty());
    lemma_uuid_text_step(text, 1, 0);
    lemma_uuid_text_step(text, 2, 1);
    lemma_uuid_text_step(text, 3, 27);
    lemma_uuid_text_step(text, 4, 439);
    lemma_uuid_text_step(text, 5, 7038);
    lemma_uuid_text_step(text, 6, 112616);
    lemma_uuid_text_step(text, 7, 1801858);
    lemma_uuid_text_step(text, 8, 28829735);
    lemma_uuid_text_step(text, 9, 461275763);
    lemma_uuid_text_step(text, 10, 461275763);
    lemma_uuid_text_step(text, 11, 7380412210);
    lemma_uuid_text_step(text, 12, 118086595368);
    lemma_uuid_text_step(text, 13, 1889385525895);
    lemma_uuid_text_step(text, 14, 30230168414327);
    lemma_uuid_text_step(text, 15, 30230168414327);
    lemma_uuid_text_step(text, 16, 483682694629236);
    lemma_uuid_text_step(text, 17, 7738923114067777);
    lemma_uuid_text_step(text, 18, 123822769825084444);
    lemma_uuid_text_step(text, 19, 1981164317201351107);
    lemma_uuid_text_step(text, 20, 1981164317201351107);
    lemma_uuid_text_step(text, 21, 31698629075221617723);
    lemma_uuid_text_step(text, 22, 507178065203545883572);
    lemma_uuid_text_step(text, 23, 8114849043256734137158);
    lemma_uuid_text_step(text, 24, 129837584692107746194542);
    lemma_uuid_text_step(text, 25, 129837584692107746194542);
    lemma_uuid_text_step(text, 26, 2077401355073723939112684);
    lemma_uuid_text_step(text, 27, 33238421681179583025802959);
    lemma_uuid_text_step(text, 28, 531814746898873328412847344);
    lemma_uuid_text_step(text, 29, 8509035950381973254605557509);
    lemma_uuid_text_step(text, 30, 136144575206111572073688920151);
    lemma_uuid_text_step(text, 31, 2178313203297785153179022722428);
    lemma_uuid_text_step(text, 32, 34853011252764562450864363558853);
    lemma_uuid_text_step(text, 33, 557648180044232999213829816941654);
    lemma_uuid_text_step(text, 34, 8922370880707727987421277071066466);
    lemma_uuid_text_step(text, 35, 142757934091323647798740433137063456);
    lemma_uuid_text_step(text, 36, 2284126945461178364779846930193015298);
    assert(text.take(36) =~= text);
}

/// A characteristic's UUID text and its 128-bit UUID denote the same UUID:
/// the text's hexadecimal digits, hyphens left out, read in base 16 give the
/// integer.
pub proof fn lemma_uuid_text_denotes_uuid(characteristic: Characteristic)
    ensures
        uuid_text_value(characteristic_uuid_text(characteristic)) == Some(characteristic_uuid(characteristic) as int),
{
    match characteristic {
        Characteristic::PositionNotification => lemma_position_notification_text(),
        Characteristic::CommandWrite => lemma_command_write_text(),
        Characteristic::CommandResponse => lemma_command_response_text(),
    }
}

} // verus!
