//! Decoders for raw class-of-device values and service UUIDs.

use crate::constants::{
    class_devices_major, class_devices_minor, class_service, class_services, major_class_name,
    minor_class_name, uuid_service_name, uuid_services, CLASS_SERVICE_COUNT, ERROR,
    MAJOR_CLASS_MASK, MINOR_CLASS_MASK, SERVICE_CLASS_MASK,
};
use vstd::prelude::*;

verus! {

/// The Bluetooth base UUID, `00000000-0000-1000-8000-00805F9B34FB`.
pub const BASE_UUID: u128 = 0x00000000_0000_1000_8000_00805F9B34FB;

/// Bits that a UUID must share with [`BASE_UUID`] to count as reserved.
pub const RESERVED_MASK: u128 = 0xFFFF0000_0000_FFFF_FFFF_FFFFFFFFFFFF;

/// Bits that a UUID must share with [`BASE_UUID`] to have a 16-bit short form.
pub const SHORT_FORM_MASK: u128 = 0xFFFF0000_FFFF_FFFF_FFFF_FFFFFFFFFFFF;

/// The texts of a sequence of strings.
pub open spec fn texts(strings: Seq<String>) -> Seq<Seq<char>> {
    strings.map_values(|s: String| s@)
}

/// The text of an optional string.
pub open spec fn text_of(name: Option<String>) -> Option<Seq<char>> {
    match name {
        Some(s) => Some(s@),
        None => None,
    }
}

/// The texts of an optional list of strings.
pub open spec fn texts_of(names: Option<Vec<String>>) -> Option<Seq<Seq<char>>> {
    match names {
        Some(v) => Some(texts(v@)),
        None => None,
    }
}

/// The texts of a list of pairs of strings.
pub open spec fn pair_texts(pairs: Seq<(String, String)>) -> Seq<(Seq<char>, Seq<char>)> {
    pairs.map_values(|p: (String, String)| (p.0@, p.1@))
}

/// Names of the first `count` service categories of the table whose bit
/// is set in `masked`, in table order.
pub open spec fn matching_services(masked: u32, count: nat) -> Seq<Seq<char>>
    decreases count,
{
    if count == 0 {
        Seq::empty()
    } else {
        let earlier = matching_services(masked, (count - 1) as nat);
        let entry = class_services()[count - 1];
        if masked & entry.0 != 0 {
            earlier.push(entry.1@)
        } else {
            earlier
        }
    }
}

/// The service categories a class value announces: none for the error
/// value and for a value with no known category bit.
pub open spec fn service_class_names(bt_class: u32) -> Option<Seq<Seq<char>>> {
    let names = matching_services(bt_class & SERVICE_CLASS_MASK, class_services().len());
    if bt_class == ERROR || names.len() == 0 {
        None
    } else {
        Some(names)
    }
}

/// The major device class a class value names: none for the error value
/// and for a value the table does not list.
pub open spec fn device_class_major(bt_class: u32) -> Option<Seq<char>> {
    if bt_class == ERROR {
        None
    } else {
        match major_class_name(bt_class & MAJOR_CLASS_MASK) {
            Some(name) => Some(name@),
            None => None,
        }
    }
}

/// The device class a class value names: none for the error value and
/// for a value the table does not list.
pub open spec fn device_class_minor(bt_class: u32) -> Option<Seq<char>> {
    if bt_class == ERROR {
        None
    } else {
        match minor_class_name(bt_class & MINOR_CLASS_MASK) {
            Some(name) => Some(name@),
            None => None,
        }
    }
}

/// Decodes the service categories of a class value.
pub fn get_service_class_name(bt_class: u32) -> (names: Option<Vec<String>>)
    ensures
        texts_of(names) == service_class_names(bt_class),
{
    if bt_class == ERROR {
        return None;
    }
    let masked = bt_class & SERVICE_CLASS_MASK;
    let mut classes: Vec<String> = Vec::new();
    let mut index: usize = 0;
    assert(texts(classes@) =~= matching_services(masked, 0));
    while index < CLASS_SERVICE_COUNT
        invariant
            index <= CLASS_SERVICE_COUNT,
            texts(classes@) == matching_services(masked, index as nat),
        decreases CLASS_SERVICE_COUNT - index,
    {
        let (bitmask, name) = class_service(index);
        if masked & bitmask != 0 {
            let ghost before = classes@;
            classes.push(name.to_string());
            assert(texts(classes@) =~= texts(before).push(name@));
        }
        index += 1;
    }
    if !classes.is_empty() {
        return Some(classes);
    }
    None
}

/// Decodes the major device class of a class value.
pub fn get_device_class_name_major(bt_class: u32) -> (name: Option<String>)
    ensures
        text_of(name) == device_class_major(bt_class),
{
    if bt_class == ERROR {
        return None;
    }
    let masked = bt_class & MAJOR_CLASS_MASK;
    if let Some(device_class_name) = class_devices_major(masked) {
        return Some(device_class_name.to_string());
    }
    None
}

/// Decodes the device class of a class value.
pub fn get_device_class_name_minor(bt_class: u32) -> (name: Option<String>)
    ensures
        text_of(name) == device_class_minor(bt_class),
{
    if bt_class == ERROR {
        return None;
    }
    let masked = bt_class & MINOR_CLASS_MASK;
    if let Some(device_class_name) = class_devices_minor(masked) {
        return Some(device_class_name.to_string());
    }
    None
}

/// Whether a UUID lies in the range reserved by the Bluetooth base UUID.
pub open spec fn reserved(uuid: u128) -> bool {
    uuid & RESERVED_MASK == BASE_UUID
}

/// The 16-bit short form of a UUID: bits 96 to 111 of a UUID that agrees
/// with the base UUID everywhere else.
pub open spec fn short_form(uuid: u128) -> Option<u16> {
    if uuid & SHORT_FORM_MASK == BASE_UUID {
        Some((uuid >> 96) as u16)
    } else {
        None
    }
}

/// The full UUID that has `short` as its 16-bit short form.
pub open spec fn from_short_form(short: u16) -> u128 {
    BASE_UUID | ((short as u128) << 96)
}

/// The name under which a service UUID is shown.
pub open spec fn service_name(uuid: u128) -> Seq<char> {
    match short_form(uuid) {
        Some(short) => if short == 0 {
            "Audio and input profiles"@
        } else {
            match uuid_service_name(short) {
                Some(name) => name@,
                None => "Unknown"@,
            }
        },
        None => if !reserved(uuid) {
            "Proprietary"@
        } else {
            "Unknown"@
        },
    }
}

/// Lower-case hexadecimal digit for a value below sixteen.
pub open spec fn lower_hex_digit(n: u128) -> char {
    if n == 0 {
        '0'
    } else if n == 1 {
        '1'
    } else if n == 2 {
        '2'
    } else if n == 3 {
        '3'
    } else if n == 4 {
        '4'
    } else if n == 5 {
        '5'
    } else if n == 6 {
        '6'
    } else if n == 7 {
        '7'
    } else if n == 8 {
        '8'
    } else if n == 9 {
        '9'
    } else if n == 10 {
        'a'
    } else if n == 11 {
        'b'
    } else if n == 12 {
        'c'
    } else if n == 13 {
        'd'
    } else if n == 14 {
        'e'
    } else {
        'f'
    }
}

/// Hexadecimal digit `index` of a UUID, counted from the most
/// significant, `0 <= index < 32`.
pub open spec fn uuid_digit(uuid: u128, index: int) -> u128 {
    (uuid >> ((124 - 4 * index) as u128)) & 0xF
}

/// How many hyphens stand before position `position` of a hyphenated UUID.
pub open spec fn hyphens_before(position: int) -> int {
    if position < 8 {
        0
    } else if position < 13 {
        1
    } else if position < 18 {
        2
    } else if position < 23 {
        3
    } else {
        4
    }
}

/// The hyphenated lower-case text of a UUID, as in
/// `0000110a-0000-1000-8000-00805f9b34fb`.
pub open spec fn uuid_text(uuid: u128) -> Seq<char> {
    Seq::new(
        36,
        |i: int|
            if i == 8 || i == 13 || i == 18 || i == 23 {
                '-'
            } else {
                lower_hex_digit(uuid_digit(uuid, i - hyphens_before(i)))
            },
    )
}

/// The values of `uuids` in the order of their first occurrence, each once.
pub open spec fn distinct(uuids: Seq<u128>) -> Seq<u128>
    decreases uuids.len(),
{
    if uuids.len() == 0 {
        Seq::empty()
    } else {
        let earlier = distinct(uuids.drop_last());
        if earlier.contains(uuids.last()) {
            earlier
        } else {
            earlier.push(uuids.last())
        }
    }
}

/// The entry that a listing of services holds for one UUID: its text and
/// the name of the service.
pub open spec fn service_entry(uuid: u128) -> (Seq<char>, Seq<char>) {
    (uuid_text(uuid), service_name(uuid))
}

/// The listing of services for some UUIDs: one entry for each distinct UUID.
pub open spec fn service_entries(uuids: Seq<u128>) -> Seq<(Seq<char>, Seq<char>)> {
    distinct(uuids).map_values(|uuid: u128| service_entry(uuid))
}

/// A UUID with a 16-bit short form lies in the reserved range.
pub proof fn lemma_short_form_is_reserved(uuid: u128)
    requires
        short_form(uuid) is Some,
    ensures
        reserved(uuid),
{
    assert(uuid & 0xFFFF0000_FFFF_FFFF_FFFF_FFFFFFFFFFFFu128
        == 0x00000000_0000_1000_8000_00805F9B34FBu128 ==> uuid
        & 0xFFFF0000_0000_FFFF_FFFF_FFFFFFFFFFFFu128
        == 0x00000000_0000_1000_8000_00805F9B34FBu128) by (bit_vector);
}

/// The UUID built from a 16-bit short form has that short form.
pub proof fn lemma_short_form_round_trip(short: u16)
    ensures
        short_form(from_short_form(short)) == Some(short),
{
    assert((0x00000000_0000_1000_8000_00805F9B34FBu128 | ((short as u128) << 96))
        & 0xFFFF0000_FFFF_FFFF_FFFF_FFFFFFFFFFFFu128
        == 0x00000000_0000_1000_8000_00805F9B34FBu128) by (bit_vector);
    assert(((0x00000000_0000_1000_8000_00805F9B34FBu128 | ((short as u128) << 96)) >> 96) as u16
        == short) by (bit_vector);
}

/// A UUID whose 16-bit short form is not zero and not registered is
/// shown as `Unknown`.
pub proof fn law_unregistered_short_form_is_unknown(uuid: u128)
    requires
        short_form(uuid) matches Some(short) && short != 0 && uuid_service_name(short) is None,
    ensures
        reserved(uuid),
        service_name(uuid) == "Unknown"@,
{
    lemma_short_form_is_reserved(uuid);
}

/// A UUID outside the reserved range is shown as `Proprietary`.
pub proof fn law_unreserved_is_proprietary(uuid: u128)
    requires
        !reserved(uuid),
    ensures
        service_name(uuid) == "Proprietary"@,
{
    if short_form(uuid) is Some {
        lemma_short_form_is_reserved(uuid);
    }
}

/// The UUID built from a registered 16-bit short form is shown under the
/// registered name.
pub proof fn law_registered_short_form_has_its_name(short: u16)
    requires
        short != 0,
        uuid_service_name(short) is Some,
    ensures
        service_name(from_short_form(short)) == uuid_service_name(short)->0@,
{
    lemma_short_form_round_trip(short);
}

/// Tells whether a UUID lies in the range reserved by the Bluetooth base
/// UUID.
pub fn is_reserved(uuid: u128) -> (yes: bool)
    ensures
        yes == reserved(uuid),
{
    (uuid & RESERVED_MASK) == BASE_UUID
}

/// The 16-bit short form of a UUID, if it has one.
///
/// Trusted: calls `UuidExt::as_u16` of `bluer` on the UUID with the given
/// 128-bit value. That function returns bits 96 to 111 when all other
/// bits equal those of the base UUID, and nothing otherwise.
#[verifier::external_body]
fn as_u16(uuid: u128) -> (short: Option<u16>)
    ensures
        short == short_form(uuid),
{
    bluer::UuidExt::as_u16(&bluer::Uuid::from_u128(uuid))
}

/// Writes a UUID out.
///
/// Trusted: calls `Display` of `uuid::Uuid` on the UUID with the given
/// 128-bit value, which writes its 32 hexadecimal digits in lower case,
/// most significant first, in groups of 8, 4, 4, 4 and 12 with a hyphen
/// between groups.
#[verifier::external_body]
fn uuid_to_string(uuid: u128) -> (text: String)
    ensures
        text@ == uuid_text(uuid),
{
    uuid::Uuid::from_u128(uuid).to_string()
}

/// Resolves the name under which one service UUID is shown.
pub fn get_uuid_service_name(uuid: u128) -> (name: String)
    ensures
        name@ == service_name(uuid),
{
    let service_name = if let Some(short_uuid) = as_u16(uuid) {
        if short_uuid == 0 {
            "Audio and input profiles"
        } else {
            match uuid_services(short_uuid) {
                Some(registered) => registered,
                None => "Unknown",
            }
        }
    } else if !is_reserved(uuid) {
        "Proprietary"
    } else {
        "Unknown"
    };
    service_name.to_string()
}

/// Whether `uuid` occurs among the first `count` of `uuids`.
fn seen_before(uuids: &Vec<u128>, count: usize, uuid: u128) -> (seen: bool)
    requires
        count <= uuids.len(),
    ensures
        seen == uuids@.take(count as int).contains(uuid),
{
    let mut index: usize = 0;
    while index < count
        invariant
            index <= count <= uuids.len(),
            forall|j: int| 0 <= j < index ==> uuids@[j] != uuid,
        decreases count - index,
    {
        if uuids[index] == uuid {
            assert(uuids@.take(count as int)[index as int] == uuid);
            return true;
        }
        index += 1;
    }
    false
}

/// The distinct values of a sequence are exactly its values.
proof fn lemma_distinct_contains(uuids: Seq<u128>, uuid: u128)
    ensures
        distinct(uuids).contains(uuid) <==> uuids.contains(uuid),
    decreases uuids.len(),
{
    if uuids.len() > 0 {
        let front = uuids.drop_last();
        let earlier = distinct(front);
        let all = distinct(uuids);
        lemma_distinct_contains(front, uuid);
        if uuids.contains(uuid) {
            let j = choose|j: int| 0 <= j < uuids.len() && uuids[j] == uuid;
            if j < front.len() {
                assert(front[j] == uuid);
            }
            if earlier.contains(uuid) {
                let k = choose|k: int| 0 <= k < earlier.len() && earlier[k] == uuid;
                assert(all[k] == uuid);
            } else {
                assert(all[earlier.len() as int] == uuid);
            }
        }
        if all.contains(uuid) {
            let k = choose|k: int| 0 <= k < all.len() && all[k] == uuid;
            if k < earlier.len() {
                assert(earlier[k] == uuid);
                let j = choose|j: int| 0 <= j < front.len() && front[j] == uuid;
                assert(uuids[j] == uuid);
            } else {
                assert(uuids[uuids.len() - 1] == uuid);
            }
        }
    }
}

/// No value occurs twice among the distinct values of a sequence.
proof fn lemma_distinct_no_duplicates(uuids: Seq<u128>)
    ensures
        distinct(uuids).no_duplicates(),
    decreases uuids.len(),
{
    if uuids.len() > 0 {
        lemma_distinct_no_duplicates(uuids.drop_last());
    }
}

/// A hexadecimal digit of a UUID is below sixteen.
proof fn lemma_uuid_digit_bound(uuid: u128, index: int)
    ensures
        uuid_digit(uuid, index) < 16,
{
    let shifted = uuid >> ((124 - 4 * index) as u128);
    assert(shifted & 0xF < 16) by (bit_vector);
}

/// Two UUIDs with the same text are the same UUID.
pub proof fn law_uuid_text_tells_uuids_apart(a: u128, b: u128)
    requires
        uuid_text(a) == uuid_text(b),
    ensures
        a == b,
{
    assert forall|index: int| 0 <= index < 32 implies uuid_digit(a, index) == uuid_digit(
        b,
        index,
    ) by {
        let position = if index < 8 {
            index
        } else if index < 12 {
            index + 1
        } else if index < 16 {
            index + 2
        } else if index < 20 {
            index + 3
        } else {
            index + 4
        };
        assert(uuid_text(a)[position] == lower_hex_digit(uuid_digit(a, index)));
        assert(uuid_text(b)[position] == lower_hex_digit(uuid_digit(b, index)));
        lemma_uuid_digit_bound(a, index);
        lemma_uuid_digit_bound(b, index);
    }
    assert((a >> 124u128) & 0xF == (b >> 124u128) & 0xF) by {
        assert(uuid_digit(a, 0) == uuid_digit(b, 0));
    }
    assert((a >> 120u128) & 0xF == (b >> 120u128) & 0xF) by {
        assert(uuid_digit(a, 1) == uuid_digit(b, 1));
    }
    assert((a >> 116u128) & 0xF == (b >> 116u128) & 0xF) by {
        assert(uuid_digit(a, 2) == uuid_digit(b, 2));
    }
    assert((a >> 112u128) & 0xF == (b >> 112u128) & 0xF) by {
        assert(uuid_digit(a, 3) == uuid_digit(b, 3));
    }
    assert((a >> 108u128) & 0xF == (b >> 108u128) & 0xF) by {
        assert(uuid_digit(a, 4) == uuid_digit(b, 4));
    }
    assert((a >> 104u128) & 0xF == (b >> 104u128) & 0xF) by {
        assert(uuid_digit(a, 5) == uuid_digit(b, 5));
    }
    assert((a >> 100u128) & 0xF == (b >> 100u128) & 0xF) by {
        assert(uuid_digit(a, 6) == uuid_digit(b, 6));
    }
    assert((a >> 96u128) & 0xF == (b >> 96u128) & 0xF) by {
        assert(uuid_digit(a, 7) == uuid_digit(b, 7));
    }
    assert((a >> 92u128) & 0xF == (b >> 92u128) & 0xF) by {
        assert(uuid_digit(a, 8) == uuid_digit(b, 8));
    }
    assert((a >> 88u128) & 0xF == (b >> 88u128) & 0xF) by {
        assert(uuid_digit(a, 9) == uuid_digit(b, 9));
    }
    assert((a >> 84u128) & 0xF == (b >> 84u128) & 0xF) by {
        assert(uuid_digit(a, 10) == uuid_digit(b, 10));
    }
    assert((a >> 80u128) & 0xF == (b >> 80u128) & 0xF) by {
        assert(uuid_digit(a, 11) == uuid_digit(b, 11));
    }
    assert((a >> 76u128) & 0xF == (b >> 76u128) & 0xF) by {
        assert(uuid_digit(a, 12) == uuid_digit(b, 12));
    }
    assert((a >> 72u128) & 0xF == (b >> 72u128) & 0xF) by {
        assert(uuid_digit(a, 13) == uuid_digit(b, 13));
    }
    assert((a >> 68u128) & 0xF == (b >> 68u128) & 0xF) by {
        assert(uuid_digit(a, 14) == uuid_digit(b, 14));
    }
    assert((a >> 64u128) & 0xF == (b >> 64u128) & 0xF) by {
        assert(uuid_digit(a, 15) == uuid_digit(b, 15));
    }
    assert((a >> 60u128) & 0xF == (b >> 60u128) & 0xF) by {
        assert(uuid_digit(a, 16) == uuid_digit(b, 16));
    }
    assert((a >> 56u128) & 0xF == (b >> 56u128) & 0xF) by {
        assert(uuid_digit(a, 17) == uuid_digit(b, 17));
    }
    assert((a >> 52u128) & 0xF == (b >> 52u128) & 0xF) by {
        assert(uuid_digit(a, 18) == uuid_digit(b, 18));
    }
    assert((a >> 48u128) & 0xF == (b >> 48u128) & 0xF) by {
        assert(uuid_digit(a, 19) == uuid_digit(b, 19));
    }
    assert((a >> 44u128) & 0xF == (b >> 44u128) & 0xF) by {
        assert(uuid_digit(a, 20) == uuid_digit(b, 20));
    }
    assert((a >> 40u128) & 0xF == (b >> 40u128) & 0xF) by {
        assert(uuid_digit(a, 21) == uuid_digit(b, 21));
    }
    assert((a >> 36u128) & 0xF == (b >> 36u128) & 0xF) by {
        assert(uuid_digit(a, 22) == uuid_digit(b, 22));
    }
    assert((a >> 32u128) & 0xF == (b >> 32u128) & 0xF) by {
        assert(uuid_digit(a, 23) == uuid_digit(b, 23));
    }
    assert((a >> 28u128) & 0xF == (b >> 28u128) & 0xF) by {
        assert(uuid_digit(a, 24) == uuid_digit(b, 24));
    }
    assert((a >> 24u128) & 0xF == (b >> 24u128) & 0xF) by {
        assert(uuid_digit(a, 25) == uuid_digit(b, 25));
    }
    assert((a >> 20u128) & 0xF == (b >> 20u128) & 0xF) by {
        assert(uuid_digit(a, 26) == uuid_digit(b, 26));
    }
    assert((a >> 16u128) & 0xF == (b >> 16u128) & 0xF) by {
        assert(uuid_digit(a, 27) == uuid_digit(b, 27));
    }
    assert((a >> 12u128) & 0xF == (b >> 12u128) & 0xF) by {
        assert(uuid_digit(a, 28) == uuid_digit(b, 28));
    }
    assert((a >> 8u128) & 0xF == (b >> 8u128) & 0xF) by {
        assert(uuid_digit(a, 29) == uuid_digit(b, 29));
    }
    assert((a >> 4u128) & 0xF == (b >> 4u128) & 0xF) by {
        assert(uuid_digit(a, 30) == uuid_digit(b, 30));
    }
    assert((a >> 0u128) & 0xF == (b >> 0u128) & 0xF) by {
        assert(uuid_digit(a, 31) == uuid_digit(b, 31));
    }
    assert(a == b) by (bit_vector)
        requires
            (a >> 124u128) & 0xF == (b >> 124u128) & 0xF,
            (a >> 120u128) & 0xF == (b >> 120u128) & 0xF,
            (a >> 116u128) & 0xF == (b >> 116u128) & 0xF,
            (a >> 112u128) & 0xF == (b >> 112u128) & 0xF,
            (a >> 108u128) & 0xF == (b >> 108u128) & 0xF,
            (a >> 104u128) & 0xF == (b >> 104u128) & 0xF,
            (a >> 100u128) & 0xF == (b >> 100u128) & 0xF,
            (a >> 96u128) & 0xF == (b >> 96u128) & 0xF,
            (a >> 92u128) & 0xF == (b >> 92u128) & 0xF,
            (a >> 88u128) & 0xF == (b >> 88u128) & 0xF,
            (a >> 84u128) & 0xF == (b >> 84u128) & 0xF,
            (a >> 80u128) & 0xF == (b >> 80u128) & 0xF,
            (a >> 76u128) & 0xF == (b >> 76u128) & 0xF,
            (a >> 72u128) & 0xF == (b >> 72u128) & 0xF,
            (a >> 68u128) & 0xF == (b >> 68u128) & 0xF,
            (a >> 64u128) & 0xF == (b >> 64u128) & 0xF,
            (a >> 60u128) & 0xF == (b >> 60u128) & 0xF,
            (a >> 56u128) & 0xF == (b >> 56u128) & 0xF,
            (a >> 52u128) & 0xF == (b >> 52u128) & 0xF,
            (a >> 48u128) & 0xF == (b >> 48u128) & 0xF,
            (a >> 44u128) & 0xF == (b >> 44u128) & 0xF,
            (a >> 40u128) & 0xF == (b >> 40u128) & 0xF,
            (a >> 36u128) & 0xF == (b >> 36u128) & 0xF,
            (a >> 32u128) & 0xF == (b >> 32u128) & 0xF,
            (a >> 28u128) & 0xF == (b >> 28u128) & 0xF,
            (a >> 24u128) & 0xF == (b >> 24u128) & 0xF,
            (a >> 20u128) & 0xF == (b >> 20u128) & 0xF,
            (a >> 16u128) & 0xF == (b >> 16u128) & 0xF,
            (a >> 12u128) & 0xF == (b >> 12u128) & 0xF,
            (a >> 8u128) & 0xF == (b >> 8u128) & 0xF,
            (a >> 4u128) & 0xF == (b >> 4u128) & 0xF,
            (a >> 0u128) & 0xF == (b >> 0u128) & 0xF,
    ;
}

/// A listing of services holds no UUID text twice.
pub proof fn law_service_entries_are_a_mapping(uuids: Seq<u128>, i: int, j: int)
    requires
        0 <= i < j < service_entries(uuids).len(),
    ensures
        service_entries(uuids)[i].0 != service_entries(uuids)[j].0,
{
    lemma_distinct_no_duplicates(uuids);
    let values = distinct(uuids);
    assert(values[i] != values[j]);
    if uuid_text(values[i]) == uuid_text(values[j]) {
        law_uuid_text_tells_uuids_apart(values[i], values[j]);
    }
}

/// A listing of services has an entry for a UUID exactly if the UUID is
/// among those given.
pub proof fn law_service_entries_cover_the_uuids(uuids: Seq<u128>, uuid: u128)
    ensures
        service_entries(uuids).contains(service_entry(uuid)) <==> uuids.contains(uuid),
{
    lemma_distinct_contains(uuids, uuid);
    let values = distinct(uuids);
    let entries = service_entries(uuids);
    if values.contains(uuid) {
        let k = choose|k: int| 0 <= k < values.len() && values[k] == uuid;
        assert(entries[k] == service_entry(uuid));
    }
    if entries.contains(service_entry(uuid)) {
        let k = choose|k: int| 0 <= k < entries.len() && entries[k] == service_entry(uuid);
        assert(entries[k] == service_entry(values[k]));
        law_uuid_text_tells_uuids_apart(values[k], uuid);
    }
}

/// Resolves a list of service UUIDs to a listing of their texts and
/// names, one entry for each distinct UUID, in the order of first
/// occurrence.
pub fn get_uuid_local_service_names(uuids: Vec<u128>) -> (uuid_map: Vec<(String, String)>)
    ensures
        pair_texts(uuid_map@) == service_entries(uuids@),
{
    let mut uuid_map: Vec<(String, String)> = Vec::new();
    let mut index: usize = 0;
    assert(pair_texts(uuid_map@) =~= service_entries(uuids@.take(0)));
    while index < uuids.len()
        invariant
            index <= uuids.len(),
            pair_texts(uuid_map@) == service_entries(uuids@.take(index as int)),
        decreases uuids.len() - index,
    {
        let uuid = uuids[index];
        let seen = seen_before(&uuids, index, uuid);
        proof {
            let next = uuids@.take(index + 1);
            assert(next.drop_last() =~= uuids@.take(index as int));
            assert(next.last() == uuid);
            lemma_distinct_contains(uuids@.take(index as int), uuid);
        }
        if !seen {
            let ghost before = uuid_map@;
            let text = uuid_to_string(uuid);
            let name = get_uuid_service_name(uuid);
            uuid_map.push((text, name));
            assert(pair_texts(uuid_map@) =~= pair_texts(before).push(service_entry(uuid)));
            assert(service_entries(uuids@.take(index + 1)) =~= service_entries(
                uuids@.take(index as int),
            ).push(service_entry(uuid)));
        }
        index += 1;
    }
    assert(uuids@.take(uuids.len() as int) =~= uuids@);
    uuid_map
}

} // verus!
