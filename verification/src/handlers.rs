//! What the fleet answers to the requests made of it.

use crate::device::{
    Device, DeviceSnapshot, DeviceView, SnapshotView, StandbyStatus, ids_of, roster_view, roster_wf,
};
use crate::payload::{text_member, text_members};
use vstd::prelude::*;
use vstd::string::StrSliceExecFns;

verus! {

/// Whether `c` is one of the ten decimal digits.
pub open spec fn is_digit(c: char) -> bool {
    '0' <= c <= '9'
}

/// The number that the decimal digit `c` stands for.
pub open spec fn digit_of(c: char) -> nat {
    (c as u32 - '0' as u32) as nat
}

/// Whether `text` holds decimal digits and nothing else.
pub open spec fn all_digits(text: Seq<char>) -> bool {
    forall|at: int| 0 <= at < text.len() ==> is_digit(#[trigger] text[at])
}

/// The number that the decimal digits of `digits` write.
pub open spec fn decimal_value(digits: Seq<char>) -> nat
    decreases digits.len(),
{
    if digits.len() == 0 {
        0
    } else {
        10 * decimal_value(digits.drop_last()) + digit_of(digits.last())
    }
}

/// The digits of a device id: the text without the plus sign that may lead it.
pub open spec fn id_digits(text: Seq<char>) -> Seq<char> {
    if text.len() > 0 && text[0] == '+' {
        text.drop_first()
    } else {
        text
    }
}

/// The device id that `text` writes, if it writes one: at least one decimal
/// digit, after at most one leading plus sign, with a value that a device id
/// can have. Anything else, white space included, writes none.
pub open spec fn device_id_of(text: Seq<char>) -> Option<u16> {
    let digits = id_digits(text);
    if digits.len() > 0 && all_digits(digits) && decimal_value(digits) <= u16::MAX {
        Some(decimal_value(digits) as u16)
    } else {
        None
    }
}

/// A longer number is never smaller than the number its first digits write.
pub proof fn lemma_decimal_value_grows(digits: Seq<char>, shorter: int)
    requires
        0 <= shorter <= digits.len(),
    ensures
        decimal_value(digits.subrange(0, shorter)) <= decimal_value(digits),
    decreases digits.len() - shorter,
{
    if shorter == digits.len() {
        assert(digits.subrange(0, shorter) =~= digits);
    } else {
        lemma_decimal_value_grows(digits, shorter + 1);
        assert(digits.subrange(0, shorter + 1).drop_last() =~= digits.subrange(0, shorter));
    }
}

/// A text with a character outside ASCII writes no device id.
proof fn lemma_id_is_ascii(text: Seq<char>)
    requires
        !vstd::utf8::is_ascii_chars(text),
    ensures
        device_id_of(text) is None,
{
    assert(exists|at: int| 0 <= at < text.len() && !('\0' <= #[trigger] text[at] <= '\u{7f}'));
    let at = choose|at: int| 0 <= at < text.len() && !('\0' <= #[trigger] text[at] <= '\u{7f}');
    let digits = id_digits(text);
    if text[0] == '+' {
        assert(at > 0);
        assert(digits[at - 1] == text[at]);
        assert(!is_digit(digits[at - 1]));
    } else {
        assert(!is_digit(digits[at]));
    }
}

/// Reads a device id from the text of a request path.
pub fn parse_device_id(text: &str) -> (id: Option<u16>)
    ensures
        id == device_id_of(text@),
{
    if !text.is_ascii() {
        proof {
            lemma_id_is_ascii(text@);
        }
        return None;
    }
    let length: usize = text.unicode_len();
    let start: usize = if length > 0 && text.get_ascii(0) == 43 {
        1
    } else {
        0
    };
    if start == length {
        return None;
    }
    let ghost digits = id_digits(text@);
    assert(digits =~= text@.subrange(start as int, length as int));
    let mut value: u32 = 0;
    let mut at: usize = start;
    while at < length
        invariant
            start <= at <= length,
            text.is_ascii(),
            length == text@.len(),
            digits == id_digits(text@),
            digits == text@.subrange(start as int, length as int),
            all_digits(digits.subrange(0, at - start)),
            value == decimal_value(digits.subrange(0, at - start)),
            value <= u16::MAX,
        decreases length - at,
    {
        let code: u8 = text.get_ascii(at);
        proof {
            assert(digits[at - start] == text@[at as int]);
            assert(code as u32 == digits[at - start] as u32);
            assert(digits.subrange(0, at - start + 1).drop_last() =~= digits.subrange(
                0,
                at - start,
            ));
            lemma_decimal_value_grows(digits, at - start + 1);
        }
        if code < 48 || code > 57 {
            assert(!is_digit(digits[at - start]));
            return None;
        }
        let next: u32 = value * 10 + (code - 48) as u32;
        assert(next == decimal_value(digits.subrange(0, at - start + 1)));
        if next > 65535 {
            return None;
        }
        value = next;
        at = at + 1;
    }
    assert(digits.subrange(0, at - start) =~= digits);
    Some(value as u16)
}

/// The power state that the text of a request names: `On` or `Off`, written
/// exactly so. A request without such a text, or with any other, names none.
pub open spec fn power_of(requested: Option<Seq<char>>) -> Option<StandbyStatus> {
    match requested {
        Some(text) => if text == seq!['O', 'n'] {
            Some(StandbyStatus::On)
        } else if text == seq!['O', 'f', 'f'] {
            Some(StandbyStatus::Off)
        } else {
            None
        },
        None => None,
    }
}

/// Reads the power state that a request asks for.
pub fn parse_power(requested: Option<&str>) -> (power: Option<StandbyStatus>)
    ensures
        power == power_of(
            match requested {
                Some(text) => Some(text@),
                None => None,
            },
        ),
{
    match requested {
        None => None,
        Some(text) => {
            let length: usize = text.unicode_len();
            if length == 2 && text.get_char(0) == 'O' && text.get_char(1) == 'n' {
                assert(text@ =~= seq!['O', 'n']);
                Some(StandbyStatus::On)
            } else if length == 3 && text.get_char(0) == 'O' && text.get_char(1) == 'f'
                && text.get_char(2) == 'f' {
                assert(text@ =~= seq!['O', 'f', 'f']);
                Some(StandbyStatus::Off)
            } else {
                assert(text@ != seq!['O', 'n']) by {
                    if text@ == seq!['O', 'n'] {
                        assert(text@.len() == 2 && text@[0] == 'O' && text@[1] == 'n');
                    }
                }
                assert(text@ != seq!['O', 'f', 'f']) by {
                    if text@ == seq!['O', 'f', 'f'] {
                        assert(text@.len() == 3 && text@[0] == 'O' && text@[1] == 'f' && text@[2]
                            == 'f');
                    }
                }
                None
            }
        },
    }
}

/// Why a request was turned down.
#[derive(Clone, Copy, Debug, PartialEq, Eq, Structural)]
pub enum RequestError {
    /// The path does not write a device id.
    MalformedId,
    /// No device of the roster has the id asked for.
    UnknownDevice,
    /// The request names no power state, or one that is neither `On` nor `Off`.
    InvalidPower,
}

/// The status of an answer that carries what was asked for.
pub const STATUS_OK: u16 = 200;

/// The status of an answer to a request that is wrong in itself.
pub const STATUS_BAD_REQUEST: u16 = 400;

/// The status of an answer to a request for a device that is not there.
pub const STATUS_NOT_FOUND: u16 = 404;

impl RequestError {
    /// The HTTP status that reports this error. A path that writes no id
    /// names no device, so it is reported as a device that is not there.
    pub open spec fn status(self) -> u16 {
        match self {
            RequestError::MalformedId => STATUS_NOT_FOUND,
            RequestError::UnknownDevice => STATUS_NOT_FOUND,
            RequestError::InvalidPower => STATUS_BAD_REQUEST,
        }
    }

    /// The HTTP status that reports this error.
    pub fn status_code(&self) -> (code: u16)
        ensures
            code == self.status(),
    {
        match self {
            RequestError::MalformedId => STATUS_NOT_FOUND,
            RequestError::UnknownDevice => STATUS_NOT_FOUND,
            RequestError::InvalidPower => STATUS_BAD_REQUEST,
        }
    }
}

/// Whether some device of the roster has the id `id`.
pub open spec fn has_id(devices: Seq<DeviceView>, id: u16) -> bool {
    exists|at: int| 0 <= at < devices.len() && (#[trigger] devices[at]).id == id
}

/// Whether `at` is the place of the first device of the roster with the id
/// `id`.
pub open spec fn first_with_id(devices: Seq<DeviceView>, id: u16, at: int) -> bool {
    &&& 0 <= at < devices.len()
    &&& devices[at].id == id
    &&& forall|before: int| 0 <= before < at ==> (#[trigger] devices[before]).id != id
}

/// Looks a device up by its id, going through the roster from its start.
pub fn find_device(devices: &Vec<Device>, id: u16) -> (found: Option<usize>)
    ensures
        found is Some <==> has_id(roster_view(devices@), id),
        found matches Some(at) ==> first_with_id(roster_view(devices@), id, at as int),
{
    let mut at: usize = 0;
    while at < devices.len()
        invariant
            at <= devices@.len(),
            forall|before: int|
                0 <= before < at ==> (#[trigger] roster_view(devices@)[before]).id != id,
        decreases devices@.len() - at,
    {
        if devices[at].id() == id {
            assert(roster_view(devices@)[at as int].id == id);
            return Some(at);
        }
        at = at + 1;
    }
    None
}

/// The snapshots of the devices of a roster, in roster order.
pub open spec fn snapshots_of(devices: Seq<DeviceView>) -> Seq<SnapshotView> {
    devices.map_values(|device: DeviceView| device.snapshot())
}

/// The snapshots of a vector as mathematical values.
pub open spec fn snapshot_views(shown: Seq<DeviceSnapshot>) -> Seq<SnapshotView> {
    shown.map_values(|one: DeviceSnapshot| one@)
}

/// Answers a request for the whole roster: a snapshot of every device, in
/// roster order.
pub fn list_devices(devices: &Vec<Device>) -> (shown: Vec<DeviceSnapshot>)
    ensures
        snapshot_views(shown@) == snapshots_of(roster_view(devices@)),
{
    let mut shown: Vec<DeviceSnapshot> = Vec::new();
    let mut at: usize = 0;
    while at < devices.len()
        invariant
            at <= devices@.len(),
            shown@.len() == at,
            forall|k: int|
                0 <= k < at ==> (#[trigger] shown@[k])@ == roster_view(devices@)[k].snapshot(),
        decreases devices@.len() - at,
    {
        shown.push(devices[at].snapshot());
        at = at + 1;
    }
    assert(snapshot_views(shown@) =~= snapshots_of(roster_view(devices@)));
    shown
}

/// Answers a request for one device, named by the text `device_id` of the
/// request path: a snapshot of the first device of the roster with that id.
pub fn get_device(device_id: &str, devices: &Vec<Device>) -> (outcome: Result<
    DeviceSnapshot,
    RequestError,
>)
    ensures
        match device_id_of(device_id@) {
            None => outcome == Err::<DeviceSnapshot, RequestError>(RequestError::MalformedId),
            Some(id) => match outcome {
                Ok(shown) => exists|at: int|
                    first_with_id(roster_view(devices@), id, at) && shown@ == (
                    #[trigger] roster_view(devices@)[at]).snapshot(),
                Err(error) => error == RequestError::UnknownDevice && !has_id(
                    roster_view(devices@),
                    id,
                ),
            },
        },
{
    match parse_device_id(device_id) {
        None => Err(RequestError::MalformedId),
        Some(id) => match find_device(devices, id) {
            None => Err(RequestError::UnknownDevice),
            Some(at) => {
                let shown = devices[at].snapshot();
                assert(first_with_id(roster_view(devices@), id, at as int) && shown@
                    == roster_view(devices@)[at as int].snapshot());
                Ok(shown)
            },
        },
    }
}

/// The roster after the request to set the power of the device `id` to what
/// `requested` names. A request that names no power state changes nothing,
/// and neither does one for an id that no device has. Otherwise the first
/// device with that id has its power set, and no other device changes.
pub open spec fn roster_after_power(
    devices: Seq<DeviceView>,
    id: u16,
    requested: Option<Seq<char>>,
    after: Seq<DeviceView>,
) -> bool {
    match power_of(requested) {
        None => after == devices,
        Some(power) => if has_id(devices, id) {
            exists|at: int|
                first_with_id(devices, id, at) && after == devices.update(
                    at,
                    (#[trigger] devices[at]).set_power(power),
                )
        } else {
            after == devices
        },
    }
}

/// What the request to set the power of the device `id` to what `requested`
/// names is answered with, on the roster `after` that the request leaves: the
/// power state is looked at first, then the id, and a request that passes
/// both is answered with a snapshot of the device as it now is.
pub open spec fn power_answer(
    devices: Seq<DeviceView>,
    id: u16,
    requested: Option<Seq<char>>,
    after: Seq<DeviceView>,
    outcome: Result<DeviceSnapshot, RequestError>,
) -> bool {
    match outcome {
        Err(error) => if power_of(requested) is None {
            error == RequestError::InvalidPower
        } else {
            error == RequestError::UnknownDevice && !has_id(devices, id)
        },
        Ok(shown) => power_of(requested) is Some && exists|at: int|
            first_with_id(devices, id, at) && shown@ == (#[trigger] after[at]).snapshot(),
    }
}

/// Sets the power of the device with the id `device_id` to the state that
/// the text `requested` names, and answers with a snapshot of the device.
pub fn set_device_power(
    device_id: u16,
    devices: &mut Vec<Device>,
    requested: Option<&str>,
) -> (outcome: Result<DeviceSnapshot, RequestError>)
    ensures
        roster_after_power(
            roster_view(old(devices)@),
            device_id,
            match requested {
                Some(text) => Some(text@),
                None => None,
            },
            roster_view(final(devices)@),
        ),
        power_answer(
            roster_view(old(devices)@),
            device_id,
            match requested {
                Some(text) => Some(text@),
                None => None,
            },
            roster_view(final(devices)@),
            outcome,
        ),
        ids_of(roster_view(final(devices)@)) == ids_of(roster_view(old(devices)@)),
        roster_wf(roster_view(old(devices)@)) ==> roster_wf(roster_view(final(devices)@)),
{
    let power = match parse_power(requested) {
        Some(power) => power,
        None => {
            return Err(RequestError::InvalidPower);
        },
    };
    match find_device(devices, device_id) {
        None => Err(RequestError::UnknownDevice),
        Some(at) => {
            let ghost before = roster_view(devices@);
            devices[at].set_power(power);
            let shown = devices[at].snapshot();
            proof {
                let after = roster_view(devices@);
                assert(after =~= before.update(at as int, before[at as int].set_power(power)));
                assert(first_with_id(before, device_id, at as int));
                assert(shown@ == after[at as int].snapshot());
                assert(ids_of(after) =~= ids_of(before));
                assert forall|k: int| 0 <= k < after.len() && roster_wf(before) implies (
                #[trigger] after[k]).wf() by {
                    assert(before[k].wf());
                }
            }
            Ok(shown)
        },
    }
}

/// The key under which a request names the power state it asks for.
pub const POWER_KEY: &'static str = "power";

/// The text under [`POWER_KEY`] in the body of a request, if the body is an
/// object that holds a string there.
pub open spec fn requested_power(payload: serde_json::Value) -> Option<Seq<char>> {
    if text_members(payload).contains_key(POWER_KEY@) {
        Some(text_members(payload)[POWER_KEY@])
    } else {
        None
    }
}

/// Answers a request to set the power of the device with the id
/// `device_id`, whose body is the JSON document `new_power_status`.
pub fn update_device_power(
    device_id: u16,
    devices: &mut Vec<Device>,
    new_power_status: &serde_json::Value,
) -> (outcome: Result<DeviceSnapshot, RequestError>)
    ensures
        roster_after_power(
            roster_view(old(devices)@),
            device_id,
            requested_power(*new_power_status),
            roster_view(final(devices)@),
        ),
        power_answer(
            roster_view(old(devices)@),
            device_id,
            requested_power(*new_power_status),
            roster_view(final(devices)@),
            outcome,
        ),
        ids_of(roster_view(final(devices)@)) == ids_of(roster_view(old(devices)@)),
        roster_wf(roster_view(old(devices)@)) ==> roster_wf(roster_view(final(devices)@)),
{
    let requested = text_member(new_power_status, POWER_KEY);
    match requested {
        Some(text) => set_device_power(device_id, devices, Some(text.as_str())),
        None => set_device_power(device_id, devices, None),
    }
}

} // verus!
