//! The telemetry snapshot and its decoder.
//!
//! A snapshot is decoded from a document block by block. A field that the
//! wire contract makes optional may be left out or hold `null`; a member
//! that the contract does not name is not looked at; the first field that is
//! missing or of the wrong kind fails the whole document.

use crate::error::{failed_to_decode, failed_with, DroneError, Failure};
use crate::flags::{ArmingFlags, DisableReasonsFlags, FlightModeFlags};
use crate::json::{
    as_unsigned, bool_at, decimal_at, lookup, member_at, parse_document, parsed, read_bool,
    read_decimal, read_signed, read_text, read_unsigned, signed_at, text_at, unsigned_at, Found,
    Json, Member,
};
use crate::text::same_text;
use vstd::prelude::*;
use vstd::string::StringExecFns;

verus! {

/// What was wrong with a field.
#[derive(Clone, Copy, Debug, PartialEq, Eq, Structural)]
pub enum Fault {
    /// A field that the contract requires is not there.
    Missing,
    /// The field holds a value of the wrong kind, or one out of range.
    Mistyped,
    /// The field is given twice, under two of its names.
    Conflict,
    /// The tag of an event names no known kind of event.
    UnknownKind,
}

/// Why a document is not a snapshot: the field at fault, and what was wrong
/// with it.
#[derive(Clone, Copy, Debug, PartialEq, Eq)]
pub struct DecodeError {
    pub field: &'static str,
    pub fault: Fault,
}

/// The field `field` is missing.
pub open spec fn missing(field: &'static str) -> DecodeError {
    DecodeError { field, fault: Fault::Missing }
}

/// The field `field` holds a value of the wrong kind.
pub open spec fn mistyped(field: &'static str) -> DecodeError {
    DecodeError { field, fault: Fault::Mistyped }
}

/// A required field: its value, and a failure where it is missing, `null`
/// or of the wrong kind.
pub open spec fn required_value<T>(found: Found<T>, field: &'static str) -> Result<
    T,
    DecodeError,
> {
    match found {
        Found::Value(value) => Ok(value),
        Found::Absent => Err(missing(field)),
        _ => Err(mistyped(field)),
    }
}

/// An optional field: nothing where it is missing or `null`, and a failure
/// only where it is of the wrong kind.
pub open spec fn optional_value<T>(found: Found<T>, field: &'static str) -> Result<
    Option<T>,
    DecodeError,
> {
    match found {
        Found::Value(value) => Ok(Some(value)),
        Found::Absent => Ok(None),
        Found::Null => Ok(None),
        Found::Mistyped => Err(mistyped(field)),
    }
}

/// A field with a default: `fallback` where it is missing, and a failure
/// where it is `null` or of the wrong kind.
pub open spec fn defaulted_value<T>(found: Found<T>, field: &'static str, fallback: T) -> Result<
    T,
    DecodeError,
> {
    match found {
        Found::Value(value) => Ok(value),
        Found::Absent => Ok(fallback),
        _ => Err(mistyped(field)),
    }
}

/// Settles a required field.
pub fn require<T>(found: Found<T>, field: &'static str) -> (r: Result<T, DecodeError>)
    ensures
        r == required_value(found, field),
{
    match found {
        Found::Value(value) => Ok(value),
        Found::Absent => Err(DecodeError { field, fault: Fault::Missing }),
        _ => Err(DecodeError { field, fault: Fault::Mistyped }),
    }
}

/// Settles an optional field.
pub fn accept<T>(found: Found<T>, field: &'static str) -> (r: Result<Option<T>, DecodeError>)
    ensures
        r == optional_value(found, field),
{
    match found {
        Found::Value(value) => Ok(Some(value)),
        Found::Absent => Ok(None),
        Found::Null => Ok(None),
        Found::Mistyped => Err(DecodeError { field, fault: Fault::Mistyped }),
    }
}

/// Settles a field with a default.
pub fn require_or<T>(found: Found<T>, field: &'static str, fallback: T) -> (r: Result<
    T,
    DecodeError,
>)
    ensures
        r == defaulted_value(found, field, fallback),
{
    match found {
        Found::Value(value) => Ok(value),
        Found::Absent => Ok(fallback),
        _ => Err(DecodeError { field, fault: Fault::Mistyped }),
    }
}

/// The members of the object that `entry` holds; none where it holds
/// anything else.
pub open spec fn members_of(entry: Option<Json>) -> Seq<Member> {
    match entry {
        Some(Json::Object(members)) => members@,
        _ => Seq::empty(),
    }
}

/// A required block: what its object decodes to, and a failure where the
/// block is missing or no object.
pub open spec fn required_block<T>(
    entry: Option<Json>,
    field: &'static str,
    decoded: Result<T, DecodeError>,
) -> Result<T, DecodeError> {
    match entry {
        None => Err(missing(field)),
        Some(Json::Object(_)) => decoded,
        Some(_) => Err(mistyped(field)),
    }
}

/// An optional block: nothing where it is missing or `null`, what its
/// object decodes to where it is one, and a failure where it is anything
/// else.
pub open spec fn optional_block<T>(
    entry: Option<Json>,
    field: &'static str,
    decoded: Result<T, DecodeError>,
) -> Result<Option<T>, DecodeError> {
    match entry {
        None => Ok(None),
        Some(Json::Null) => Ok(None),
        Some(Json::Object(_)) => match decoded {
            Ok(block) => Ok(Some(block)),
            Err(e) => Err(e),
        },
        Some(_) => Err(mistyped(field)),
    }
}

/// A number with a fraction, carried as the decimal text of the document.
#[derive(Clone, Debug, PartialEq, Eq)]
pub struct Decimal {
    pub text: String,
}

impl View for Decimal {
    type V = Seq<char>;

    open spec fn view(&self) -> Seq<char> {
        self.text@
    }
}

/// The number that `text` holds, where there is one.
pub open spec fn decimal_of(text: Option<String>) -> Option<Decimal> {
    match text {
        Some(text) => Some(Decimal { text }),
        None => None,
    }
}

/// `value` as a `u32`. The fields read with this are within range.
pub open spec fn narrowed32(value: Option<u64>) -> Option<u32> {
    match value {
        Some(v) => Some(v as u32),
        None => None,
    }
}

/// `value` as a `u16`. The fields read with this are within range.
pub open spec fn narrowed16(value: Option<u64>) -> Option<u16> {
    match value {
        Some(v) => Some(v as u16),
        None => None,
    }
}

/// `value` as a `u8`. The fields read with this are within range.
pub open spec fn narrowed8(value: Option<u64>) -> Option<u8> {
    match value {
        Some(v) => Some(v as u8),
        None => None,
    }
}

/// `value` as an `i32`. The fields read with this are within range.
pub open spec fn narrowed_signed(value: Option<i64>) -> Option<i32> {
    match value {
        Some(v) => Some(v as i32),
        None => None,
    }
}

/// The largest `u8`, as the readers take it.
pub const MAX_U8: u64 = 0xff;

/// The largest `u16`, as the readers take it.
pub const MAX_U16: u64 = 0xffff;

/// The largest `u32`, as the readers take it.
pub const MAX_U32: u64 = 0xffff_ffff;

/// The smallest `i32`, as the readers take it.
pub const MIN_I32: i64 = -0x8000_0000;

/// The largest `i32`, as the readers take it.
pub const MAX_I32: i64 = 0x7fff_ffff;

/// The status block of the flight controller.
#[derive(Clone, Debug, PartialEq, Eq)]
pub struct FcStatus {
    pub armed: bool,
    pub failsafe: bool,
    pub flight_mode: FlightModeFlags,
    pub arming_flags: ArmingFlags,
    pub disable_reasons: DisableReasonsFlags,
    pub loop_time_us: Option<u32>,
}

/// The status block that the members `m` decode to.
pub open spec fn status_of(m: Seq<Member>) -> Result<FcStatus, DecodeError> {
    let armed = required_value(bool_at(m, "armed"@), "armed");
    let failsafe = required_value(bool_at(m, "failsafe"@), "failsafe");
    let mode = required_value(unsigned_at(m, "flight_mode_bits"@, MAX_U32), "flight_mode_bits");
    let arming = required_value(
        unsigned_at(m, "arming_flags_bits"@, MAX_U32),
        "arming_flags_bits",
    );
    let reasons = defaulted_value(
        unsigned_at(m, "disable_reasons_bits"@, MAX_U32),
        "disable_reasons_bits",
        0,
    );
    let loop_time = optional_value(unsigned_at(m, "loop_time_us"@, MAX_U32), "loop_time_us");
    if armed is Err {
        Err(armed->Err_0)
    } else if failsafe is Err {
        Err(failsafe->Err_0)
    } else if mode is Err {
        Err(mode->Err_0)
    } else if arming is Err {
        Err(arming->Err_0)
    } else if reasons is Err {
        Err(reasons->Err_0)
    } else if loop_time is Err {
        Err(loop_time->Err_0)
    } else {
        Ok(
            FcStatus {
                armed: armed->Ok_0,
                failsafe: failsafe->Ok_0,
                flight_mode: FlightModeFlags::decoded(mode->Ok_0 as u32),
                arming_flags: ArmingFlags::decoded(arming->Ok_0 as u32),
                disable_reasons: DisableReasonsFlags::decoded(reasons->Ok_0 as u32),
                loop_time_us: narrowed32(loop_time->Ok_0),
            },
        )
    }
}

/// The flags of a decoded status block are the truncating decode of the
/// three raw fields: whatever bits the document sets, the block decodes, and
/// its sets hold recognized bits only.
pub proof fn lemma_status_flags_are_truncated(m: Seq<Member>)
    requires
        status_of(m) is Ok,
    ensures
        ({
            let status = status_of(m)->Ok_0;
            &&& unsigned_at(m, "flight_mode_bits"@, MAX_U32) matches Found::Value(raw)
                && status.flight_mode == FlightModeFlags::decoded(raw as u32)
            &&& unsigned_at(m, "arming_flags_bits"@, MAX_U32) matches Found::Value(raw)
                && status.arming_flags == ArmingFlags::decoded(raw as u32)
            &&& status.disable_reasons == DisableReasonsFlags::decoded(
                match unsigned_at(m, "disable_reasons_bits"@, MAX_U32) {
                    Found::Value(raw) => raw as u32,
                    _ => 0,
                },
            )
            &&& status.flight_mode.well_formed()
            &&& status.arming_flags.well_formed()
            &&& status.disable_reasons.well_formed()
        }),
{
    let status = status_of(m)->Ok_0;
    let mode = required_value(unsigned_at(m, "flight_mode_bits"@, MAX_U32), "flight_mode_bits");
    let arming = required_value(
        unsigned_at(m, "arming_flags_bits"@, MAX_U32),
        "arming_flags_bits",
    );
    let reasons = defaulted_value(
        unsigned_at(m, "disable_reasons_bits"@, MAX_U32),
        "disable_reasons_bits",
        0,
    );
    FlightModeFlags::lemma_decoded_view(mode->Ok_0 as u32);
    ArmingFlags::lemma_decoded_view(arming->Ok_0 as u32);
    DisableReasonsFlags::lemma_decoded_view(reasons->Ok_0 as u32);
}

/// Decodes the status block.
pub fn decode_status(m: &Vec<Member>) -> (r: Result<FcStatus, DecodeError>)
    ensures
        r == status_of(m@),
{
    let armed = require(read_bool(m, "armed"), "armed")?;
    let failsafe = require(read_bool(m, "failsafe"), "failsafe")?;
    let mode = require(read_unsigned(m, "flight_mode_bits", MAX_U32), "flight_mode_bits")?;
    let arming = require(read_unsigned(m, "arming_flags_bits", MAX_U32), "arming_flags_bits")?;
    let reasons = require_or(
        read_unsigned(m, "disable_reasons_bits", MAX_U32),
        "disable_reasons_bits",
        0,
    )?;
    let loop_time = match accept(read_unsigned(m, "loop_time_us", MAX_U32), "loop_time_us")? {
        Some(v) => Some(v as u32),
        None => None,
    };
    Ok(
        FcStatus {
            armed,
            failsafe,
            flight_mode: FlightModeFlags::from_bits_truncate(mode as u32),
            arming_flags: ArmingFlags::from_bits_truncate(arming as u32),
            disable_reasons: DisableReasonsFlags::from_bits_truncate(reasons as u32),
            loop_time_us: loop_time,
        },
    )
}

/// The positions of the radio channels.
#[derive(Clone, Debug, PartialEq, Eq)]
pub struct RcChannels {
    pub roll: u16,
    pub pitch: u16,
    pub yaw: u16,
    pub throttle: u16,
    pub aux: Vec<u16>,
}

/// The radio channels as contracts speak of them.
pub struct RcReading {
    pub roll: u16,
    pub pitch: u16,
    pub yaw: u16,
    pub throttle: u16,
    pub aux: Seq<u16>,
}

impl View for RcChannels {
    type V = RcReading;

    open spec fn view(&self) -> RcReading {
        RcReading {
            roll: self.roll,
            pitch: self.pitch,
            yaw: self.yaw,
            throttle: self.throttle,
            aux: self.aux@,
        }
    }
}

/// Every item of `items` is an integer that fits sixteen bits.
pub open spec fn all_channels(items: Seq<Json>) -> bool {
    forall|i: int| 0 <= i < items.len() ==> (#[trigger] as_unsigned(items[i], MAX_U16)) is Some
}

/// The items of `items` as channel positions.
pub open spec fn channels_of(items: Seq<Json>) -> Seq<u16> {
    Seq::new(items.len(), |i: int| as_unsigned(items[i], MAX_U16)->Some_0 as u16)
}

/// The auxiliary channels among the members `m`: none where the list is
/// left out.
pub open spec fn aux_of(m: Seq<Member>) -> Result<Seq<u16>, DecodeError> {
    match member_at(m, "aux"@) {
        None => Ok(Seq::empty()),
        Some(Json::List(items)) => if all_channels(items@) {
            Ok(channels_of(items@))
        } else {
            Err(mistyped("aux"))
        },
        Some(_) => Err(mistyped("aux")),
    }
}

/// The radio channels that the members `m` decode to.
pub open spec fn rc_of(m: Seq<Member>) -> Result<RcReading, DecodeError> {
    let roll = required_value(unsigned_at(m, "roll"@, MAX_U16), "roll");
    let pitch = required_value(unsigned_at(m, "pitch"@, MAX_U16), "pitch");
    let yaw = required_value(unsigned_at(m, "yaw"@, MAX_U16), "yaw");
    let throttle = required_value(unsigned_at(m, "throttle"@, MAX_U16), "throttle");
    let aux = aux_of(m);
    if roll is Err {
        Err(roll->Err_0)
    } else if pitch is Err {
        Err(pitch->Err_0)
    } else if yaw is Err {
        Err(yaw->Err_0)
    } else if throttle is Err {
        Err(throttle->Err_0)
    } else if aux is Err {
        Err(aux->Err_0)
    } else {
        Ok(
            RcReading {
                roll: roll->Ok_0 as u16,
                pitch: pitch->Ok_0 as u16,
                yaw: yaw->Ok_0 as u16,
                throttle: throttle->Ok_0 as u16,
                aux: aux->Ok_0,
            },
        )
    }
}

/// Decodes the list of auxiliary channels.
pub fn decode_aux(m: &Vec<Member>) -> (r: Result<Vec<u16>, DecodeError>)
    ensures
        match r {
            Ok(channels) => aux_of(m@) == Ok::<Seq<u16>, DecodeError>(channels@),
            Err(e) => aux_of(m@) == Err::<Seq<u16>, DecodeError>(e),
        },
{
    match lookup(m, "aux") {
        None => Ok(Vec::new()),
        Some(Json::List(items)) => {
            let mut channels: Vec<u16> = Vec::new();
            let mut i: usize = 0;
            while i < items.len()
                invariant
                    i <= items@.len(),
                    channels@.len() == i,
                    aux_of(m@) == if all_channels(items@) {
                        Ok::<Seq<u16>, DecodeError>(channels_of(items@))
                    } else {
                        Err::<Seq<u16>, DecodeError>(mistyped("aux"))
                    },
                    forall|j: int|
                        0 <= j < i ==> (#[trigger] as_unsigned(items@[j], MAX_U16)) is Some,
                    forall|j: int|
                        0 <= j < i ==> channels@[j] == as_unsigned(items@[j], MAX_U16)->Some_0
                            as u16,
                decreases items@.len() - i,
            {
                match &items[i] {
                    Json::Number(n) => match n.unsigned {
                        Some(v) => {
                            if v <= MAX_U16 {
                                channels.push(v as u16);
                            } else {
                                assert(as_unsigned(items@[i as int], MAX_U16) is None);
                                return Err(DecodeError { field: "aux", fault: Fault::Mistyped });
                            }
                        },
                        None => {
                            assert(as_unsigned(items@[i as int], MAX_U16) is None);
                            return Err(DecodeError { field: "aux", fault: Fault::Mistyped });
                        },
                    },
                    _ => {
                        assert(as_unsigned(items@[i as int], MAX_U16) is None);
                        return Err(DecodeError { field: "aux", fault: Fault::Mistyped });
                    },
                }
                i = i + 1;
            }
            assert(channels@ =~= channels_of(items@));
            Ok(channels)
        },
        Some(_) => Err(DecodeError { field: "aux", fault: Fault::Mistyped }),
    }
}

/// Decodes the radio channels.
pub fn decode_rc(m: &Vec<Member>) -> (r: Result<RcChannels, DecodeError>)
    ensures
        match r {
            Ok(rc) => rc_of(m@) == Ok::<RcReading, DecodeError>(rc@),
            Err(e) => rc_of(m@) == Err::<RcReading, DecodeError>(e),
        },
{
    let roll = require(read_unsigned(m, "roll", MAX_U16), "roll")?;
    let pitch = require(read_unsigned(m, "pitch", MAX_U16), "pitch")?;
    let yaw = require(read_unsigned(m, "yaw", MAX_U16), "yaw")?;
    let throttle = require(read_unsigned(m, "throttle", MAX_U16), "throttle")?;
    let aux = decode_aux(m)?;
    Ok(
        RcChannels {
            roll: roll as u16,
            pitch: pitch as u16,
            yaw: yaw as u16,
            throttle: throttle as u16,
            aux,
        },
    )
}

/// The attitude of the vehicle, in degrees.
#[derive(Clone, Debug, PartialEq, Eq)]
pub struct Attitude {
    pub roll_deg: Decimal,
    pub pitch_deg: Decimal,
    pub yaw_deg: Decimal,
}

/// The attitude that the members `m` decode to.
pub open spec fn attitude_of(m: Seq<Member>) -> Result<Attitude, DecodeError> {
    let roll = required_value(decimal_at(m, "roll_deg"@), "roll_deg");
    let pitch = required_value(decimal_at(m, "pitch_deg"@), "pitch_deg");
    let yaw = required_value(decimal_at(m, "yaw_deg"@), "yaw_deg");
    if roll is Err {
        Err(roll->Err_0)
    } else if pitch is Err {
        Err(pitch->Err_0)
    } else if yaw is Err {
        Err(yaw->Err_0)
    } else {
        Ok(
            Attitude {
                roll_deg: Decimal { text: roll->Ok_0 },
                pitch_deg: Decimal { text: pitch->Ok_0 },
                yaw_deg: Decimal { text: yaw->Ok_0 },
            },
        )
    }
}

/// Decodes the attitude.
pub fn decode_attitude(m: &Vec<Member>) -> (r: Result<Attitude, DecodeError>)
    ensures
        r == attitude_of(m@),
{
    let roll = require(read_decimal(m, "roll_deg"), "roll_deg")?;
    let pitch = require(read_decimal(m, "pitch_deg"), "pitch_deg")?;
    let yaw = require(read_decimal(m, "yaw_deg"), "yaw_deg")?;
    Ok(
        Attitude {
            roll_deg: Decimal { text: roll },
            pitch_deg: Decimal { text: pitch },
            yaw_deg: Decimal { text: yaw },
        },
    )
}

/// A reading along the three axes.
#[derive(Clone, Debug, PartialEq, Eq)]
pub struct Vec3 {
    pub x: Decimal,
    pub y: Decimal,
    pub z: Decimal,
}

/// The three-axis reading that the members `m` decode to.
pub open spec fn vec3_of(m: Seq<Member>) -> Result<Vec3, DecodeError> {
    let x = required_value(decimal_at(m, "x"@), "x");
    let y = required_value(decimal_at(m, "y"@), "y");
    let z = required_value(decimal_at(m, "z"@), "z");
    if x is Err {
        Err(x->Err_0)
    } else if y is Err {
        Err(y->Err_0)
    } else if z is Err {
        Err(z->Err_0)
    } else {
        Ok(Vec3 { x: Decimal { text: x->Ok_0 }, y: Decimal { text: y->Ok_0 }, z: Decimal { text: z->Ok_0 } })
    }
}

/// Decodes a three-axis reading.
pub fn decode_vec3(m: &Vec<Member>) -> (r: Result<Vec3, DecodeError>)
    ensures
        r == vec3_of(m@),
{
    let x = require(read_decimal(m, "x"), "x")?;
    let y = require(read_decimal(m, "y"), "y")?;
    let z = require(read_decimal(m, "z"), "z")?;
    Ok(Vec3 { x: Decimal { text: x }, y: Decimal { text: y }, z: Decimal { text: z } })
}

/// Angular rates, in degrees per second, and linear acceleration, in g.
#[derive(Clone, Debug, PartialEq, Eq)]
pub struct Rates {
    pub gyro_dps: Vec3,
    pub accel_g: Vec3,
}

/// The rates that the members `m` decode to.
pub open spec fn rates_of(m: Seq<Member>) -> Result<Rates, DecodeError> {
    let gyro_entry = member_at(m, "gyro_dps"@);
    let accel_entry = member_at(m, "accel_g"@);
    let gyro = required_block(gyro_entry, "gyro_dps", vec3_of(members_of(gyro_entry)));
    let accel = required_block(accel_entry, "accel_g", vec3_of(members_of(accel_entry)));
    if gyro is Err {
        Err(gyro->Err_0)
    } else if accel is Err {
        Err(accel->Err_0)
    } else {
        Ok(Rates { gyro_dps: gyro->Ok_0, accel_g: accel->Ok_0 })
    }
}

/// Decodes the rates.
pub fn decode_rates(m: &Vec<Member>) -> (r: Result<Rates, DecodeError>)
    ensures
        r == rates_of(m@),
{
    let gyro = match lookup(m, "gyro_dps") {
        None => {
            return Err(DecodeError { field: "gyro_dps", fault: Fault::Missing });
        },
        Some(Json::Object(inner)) => decode_vec3(inner)?,
        Some(_) => {
            return Err(DecodeError { field: "gyro_dps", fault: Fault::Mistyped });
        },
    };
    let accel = match lookup(m, "accel_g") {
        None => {
            return Err(DecodeError { field: "accel_g", fault: Fault::Missing });
        },
        Some(Json::Object(inner)) => decode_vec3(inner)?,
        Some(_) => {
            return Err(DecodeError { field: "accel_g", fault: Fault::Mistyped });
        },
    };
    Ok(Rates { gyro_dps: gyro, accel_g: accel })
}

/// The state of the battery.
#[derive(Clone, Debug, PartialEq, Eq)]
pub struct Battery {
    pub voltage_v: Decimal,
    pub current_a: Option<Decimal>,
    pub mah_drawn: Option<u32>,
    pub cells: Option<u8>,
    pub low: bool,
    pub critical: bool,
}

/// The battery state that the members `m` decode to.
pub open spec fn battery_of(m: Seq<Member>) -> Result<Battery, DecodeError> {
    let voltage = required_value(decimal_at(m, "voltage_v"@), "voltage_v");
    let current = optional_value(decimal_at(m, "current_a"@), "current_a");
    let drawn = optional_value(unsigned_at(m, "mah_drawn"@, MAX_U32), "mah_drawn");
    let cells = optional_value(unsigned_at(m, "cells"@, MAX_U8), "cells");
    let low = required_value(bool_at(m, "low"@), "low");
    let critical = required_value(bool_at(m, "critical"@), "critical");
    if voltage is Err {
        Err(voltage->Err_0)
    } else if current is Err {
        Err(current->Err_0)
    } else if drawn is Err {
        Err(drawn->Err_0)
    } else if cells is Err {
        Err(cells->Err_0)
    } else if low is Err {
        Err(low->Err_0)
    } else if critical is Err {
        Err(critical->Err_0)
    } else {
        Ok(
            Battery {
                voltage_v: Decimal { text: voltage->Ok_0 },
                current_a: decimal_of(current->Ok_0),
                mah_drawn: narrowed32(drawn->Ok_0),
                cells: narrowed8(cells->Ok_0),
                low: low->Ok_0,
                critical: critical->Ok_0,
            },
        )
    }
}

/// Decodes the battery state.
pub fn decode_battery(m: &Vec<Member>) -> (r: Result<Battery, DecodeError>)
    ensures
        r == battery_of(m@),
{
    let voltage = require(read_decimal(m, "voltage_v"), "voltage_v")?;
    let current = match accept(read_decimal(m, "current_a"), "current_a")? {
        Some(text) => Some(Decimal { text }),
        None => None,
    };
    let drawn = match accept(read_unsigned(m, "mah_drawn", MAX_U32), "mah_drawn")? {
        Some(v) => Some(v as u32),
        None => None,
    };
    let cells = match accept(read_unsigned(m, "cells", MAX_U8), "cells")? {
        Some(v) => Some(v as u8),
        None => None,
    };
    let low = require(read_bool(m, "low"), "low")?;
    let critical = require(read_bool(m, "critical"), "critical")?;
    Ok(
        Battery {
            voltage_v: Decimal { text: voltage },
            current_a: current,
            mah_drawn: drawn,
            cells,
            low,
            critical,
        },
    )
}

/// The barometric altitude, in centimetres, and the vertical speed, in
/// centimetres per second.
#[derive(Clone, Copy, Debug, PartialEq, Eq, Structural)]
pub struct Altitude {
    pub baro_cm: Option<i32>,
    pub v_speed_cms: Option<i32>,
}

/// The altitude that the members `m` decode to.
pub open spec fn altitude_of(m: Seq<Member>) -> Result<Altitude, DecodeError> {
    let baro = optional_value(signed_at(m, "baro_cm"@, MIN_I32, MAX_I32), "baro_cm");
    let speed = optional_value(signed_at(m, "v_speed_cms"@, MIN_I32, MAX_I32), "v_speed_cms");
    if baro is Err {
        Err(baro->Err_0)
    } else if speed is Err {
        Err(speed->Err_0)
    } else {
        Ok(
            Altitude {
                baro_cm: narrowed_signed(baro->Ok_0),
                v_speed_cms: narrowed_signed(speed->Ok_0),
            },
        )
    }
}

/// Decodes the altitude.
pub fn decode_altitude(m: &Vec<Member>) -> (r: Result<Altitude, DecodeError>)
    ensures
        r == altitude_of(m@),
{
    let baro = match accept(read_signed(m, "baro_cm", MIN_I32, MAX_I32), "baro_cm")? {
        Some(v) => Some(v as i32),
        None => None,
    };
    let speed = match accept(read_signed(m, "v_speed_cms", MIN_I32, MAX_I32), "v_speed_cms")? {
        Some(v) => Some(v as i32),
        None => None,
    };
    Ok(Altitude { baro_cm: baro, v_speed_cms: speed })
}

/// A position fix.
#[derive(Clone, Copy, Debug, PartialEq, Eq, Structural)]
pub struct Gps {
    pub fix: bool,
    pub sats: u8,
    pub lat_e7: i32,
    pub lon_e7: i32,
    pub alt_cm: i32,
    pub ground_speed_cms: u32,
    pub ground_course_deg: u16,
}

/// The position fix that the members `m` decode to.
pub open spec fn gps_of(m: Seq<Member>) -> Result<Gps, DecodeError> {
    let fix = required_value(bool_at(m, "fix"@), "fix");
    let sats = required_value(unsigned_at(m, "sats"@, MAX_U8), "sats");
    let lat = required_value(signed_at(m, "lat_e7"@, MIN_I32, MAX_I32), "lat_e7");
    let lon = required_value(signed_at(m, "lon_e7"@, MIN_I32, MAX_I32), "lon_e7");
    let alt = required_value(signed_at(m, "alt_cm"@, MIN_I32, MAX_I32), "alt_cm");
    let speed = required_value(
        unsigned_at(m, "ground_speed_cms"@, MAX_U32),
        "ground_speed_cms",
    );
    let course = required_value(
        unsigned_at(m, "ground_course_deg"@, MAX_U16),
        "ground_course_deg",
    );
    if fix is Err {
        Err(fix->Err_0)
    } else if sats is Err {
        Err(sats->Err_0)
    } else if lat is Err {
        Err(lat->Err_0)
    } else if lon is Err {
        Err(lon->Err_0)
    } else if alt is Err {
        Err(alt->Err_0)
    } else if speed is Err {
        Err(speed->Err_0)
    } else if course is Err {
        Err(course->Err_0)
    } else {
        Ok(
            Gps {
                fix: fix->Ok_0,
                sats: sats->Ok_0 as u8,
                lat_e7: lat->Ok_0 as i32,
                lon_e7: lon->Ok_0 as i32,
                alt_cm: alt->Ok_0 as i32,
                ground_speed_cms: speed->Ok_0 as u32,
                ground_course_deg: course->Ok_0 as u16,
            },
        )
    }
}

/// Decodes the position fix.
pub fn decode_gps(m: &Vec<Member>) -> (r: Result<Gps, DecodeError>)
    ensures
        r == gps_of(m@),
{
    let fix = require(read_bool(m, "fix"), "fix")?;
    let sats = require(read_unsigned(m, "sats", MAX_U8), "sats")?;
    let lat = require(read_signed(m, "lat_e7", MIN_I32, MAX_I32), "lat_e7")?;
    let lon = require(read_signed(m, "lon_e7", MIN_I32, MAX_I32), "lon_e7")?;
    let alt = require(read_signed(m, "alt_cm", MIN_I32, MAX_I32), "alt_cm")?;
    let speed = require(read_unsigned(m, "ground_speed_cms", MAX_U32), "ground_speed_cms")?;
    let course = require(read_unsigned(m, "ground_course_deg", MAX_U16), "ground_course_deg")?;
    Ok(
        Gps {
            fix,
            sats: sats as u8,
            lat_e7: lat as i32,
            lon_e7: lon as i32,
            alt_cm: alt as i32,
            ground_speed_cms: speed as u32,
            ground_course_deg: course as u16,
        },
    )
}

/// The quality of the radio link.
#[derive(Clone, Debug, PartialEq, Eq)]
pub struct Link {
    pub rssi: Option<u16>,
    pub lq: Option<u8>,
    pub protocol: Option<String>,
}

/// The link quality that the members `m` decode to.
pub open spec fn link_of(m: Seq<Member>) -> Result<Link, DecodeError> {
    let rssi = optional_value(unsigned_at(m, "rssi"@, MAX_U16), "rssi");
    let lq = optional_value(unsigned_at(m, "lq"@, MAX_U8), "lq");
    let protocol = optional_value(text_at(m, "protocol"@), "protocol");
    if rssi is Err {
        Err(rssi->Err_0)
    } else if lq is Err {
        Err(lq->Err_0)
    } else if protocol is Err {
        Err(protocol->Err_0)
    } else {
        Ok(
            Link {
                rssi: narrowed16(rssi->Ok_0),
                lq: narrowed8(lq->Ok_0),
                protocol: protocol->Ok_0,
            },
        )
    }
}

/// Decodes the link quality.
pub fn decode_link(m: &Vec<Member>) -> (r: Result<Link, DecodeError>)
    ensures
        r == link_of(m@),
{
    let rssi = match accept(read_unsigned(m, "rssi", MAX_U16), "rssi")? {
        Some(v) => Some(v as u16),
        None => None,
    };
    let lq = match accept(read_unsigned(m, "lq", MAX_U8), "lq")? {
        Some(v) => Some(v as u8),
        None => None,
    };
    let protocol = accept(read_text(m, "protocol"), "protocol")?;
    Ok(Link { rssi, lq, protocol })
}

/// The most recent notable change of state.
#[derive(Clone, Debug, PartialEq, Eq)]
pub enum TelemetryEvent {
    Armed { ts_ms: u64 },
    Disarmed { ts_ms: u64 },
    ModeChanged { ts_ms: u64, flight_mode_bits: u32 },
    BatteryLow { ts_ms: u64, voltage_v: Decimal },
    Failsafe { ts_ms: u64, active: bool },
}

/// The largest timestamp and sequence number.
pub const MAX_U64: u64 = 0xffff_ffff_ffff_ffff;

/// The tag of an event names no known kind of event.
pub open spec fn unknown_kind() -> DecodeError {
    DecodeError { field: "kind", fault: Fault::UnknownKind }
}

/// The event of kind `kind` that the members `m` decode to. Each kind
/// requires its own fields, the timestamp first.
pub open spec fn event_of_kind(kind: Seq<char>, m: Seq<Member>) -> Result<
    TelemetryEvent,
    DecodeError,
> {
    let ts = required_value(unsigned_at(m, "ts_ms"@, MAX_U64), "ts_ms");
    if kind == "Armed"@ {
        match ts {
            Ok(ts_ms) => Ok(TelemetryEvent::Armed { ts_ms }),
            Err(e) => Err(e),
        }
    } else if kind == "Disarmed"@ {
        match ts {
            Ok(ts_ms) => Ok(TelemetryEvent::Disarmed { ts_ms }),
            Err(e) => Err(e),
        }
    } else if kind == "ModeChanged"@ {
        let bits = required_value(
            unsigned_at(m, "flight_mode_bits"@, MAX_U32),
            "flight_mode_bits",
        );
        if ts is Err {
            Err(ts->Err_0)
        } else if bits is Err {
            Err(bits->Err_0)
        } else {
            Ok(TelemetryEvent::ModeChanged { ts_ms: ts->Ok_0, flight_mode_bits: bits->Ok_0 as u32 })
        }
    } else if kind == "BatteryLow"@ {
        let voltage = required_value(decimal_at(m, "voltage_v"@), "voltage_v");
        if ts is Err {
            Err(ts->Err_0)
        } else if voltage is Err {
            Err(voltage->Err_0)
        } else {
            Ok(
                TelemetryEvent::BatteryLow {
                    ts_ms: ts->Ok_0,
                    voltage_v: Decimal { text: voltage->Ok_0 },
                },
            )
        }
    } else if kind == "Failsafe"@ {
        let active = required_value(bool_at(m, "active"@), "active");
        if ts is Err {
            Err(ts->Err_0)
        } else if active is Err {
            Err(active->Err_0)
        } else {
            Ok(TelemetryEvent::Failsafe { ts_ms: ts->Ok_0, active: active->Ok_0 })
        }
    } else {
        Err(unknown_kind())
    }
}

/// The event that the members `m` decode to: the tag `kind` picks the kind
/// of event.
pub open spec fn event_of(m: Seq<Member>) -> Result<TelemetryEvent, DecodeError> {
    match required_value(text_at(m, "kind"@), "kind") {
        Ok(kind) => event_of_kind(kind@, m),
        Err(e) => Err(e),
    }
}

/// Decodes an event.
pub fn decode_event(m: &Vec<Member>) -> (r: Result<TelemetryEvent, DecodeError>)
    ensures
        r == event_of(m@),
{
    let kind = require(read_text(m, "kind"), "kind")?;
    let tag = kind.as_str();
    if same_text(tag, "Armed") {
        let ts_ms = require(read_unsigned(m, "ts_ms", MAX_U64), "ts_ms")?;
        Ok(TelemetryEvent::Armed { ts_ms })
    } else if same_text(tag, "Disarmed") {
        let ts_ms = require(read_unsigned(m, "ts_ms", MAX_U64), "ts_ms")?;
        Ok(TelemetryEvent::Disarmed { ts_ms })
    } else if same_text(tag, "ModeChanged") {
        let ts_ms = require(read_unsigned(m, "ts_ms", MAX_U64), "ts_ms")?;
        let bits = require(read_unsigned(m, "flight_mode_bits", MAX_U32), "flight_mode_bits")?;
        Ok(TelemetryEvent::ModeChanged { ts_ms, flight_mode_bits: bits as u32 })
    } else if same_text(tag, "BatteryLow") {
        let ts_ms = require(read_unsigned(m, "ts_ms", MAX_U64), "ts_ms")?;
        let voltage = require(read_decimal(m, "voltage_v"), "voltage_v")?;
        Ok(TelemetryEvent::BatteryLow { ts_ms, voltage_v: Decimal { text: voltage } })
    } else if same_text(tag, "Failsafe") {
        let ts_ms = require(read_unsigned(m, "ts_ms", MAX_U64), "ts_ms")?;
        let active = require(read_bool(m, "active"), "active")?;
        Ok(TelemetryEvent::Failsafe { ts_ms, active })
    } else {
        Err(DecodeError { field: "kind", fault: Fault::UnknownKind })
    }
}

/// A point-in-time status document.
#[derive(Clone, Debug, PartialEq, Eq)]
pub struct TelemetrySnapshot {
    pub as_of_ms: u64,
    pub seq: u64,
    pub status: FcStatus,
    pub rc: Option<RcChannels>,
    pub attitude: Option<Attitude>,
    pub rates: Option<Rates>,
    pub battery: Option<Battery>,
    pub altitude: Option<Altitude>,
    pub gps: Option<Gps>,
    pub link: Option<Link>,
    pub cpu_load: Option<u8>,
    pub last_event: Option<TelemetryEvent>,
}

/// A snapshot as contracts speak of it.
pub struct SnapshotView {
    pub as_of_ms: u64,
    pub seq: u64,
    pub status: FcStatus,
    pub rc: Option<RcReading>,
    pub attitude: Option<Attitude>,
    pub rates: Option<Rates>,
    pub battery: Option<Battery>,
    pub altitude: Option<Altitude>,
    pub gps: Option<Gps>,
    pub link: Option<Link>,
    pub cpu_load: Option<u8>,
    pub last_event: Option<TelemetryEvent>,
}

/// The view of the radio channels, where there are any.
pub open spec fn rc_reading(rc: Option<RcChannels>) -> Option<RcReading> {
    match rc {
        Some(channels) => Some(channels@),
        None => None,
    }
}

impl View for TelemetrySnapshot {
    type V = SnapshotView;

    open spec fn view(&self) -> SnapshotView {
        SnapshotView {
            as_of_ms: self.as_of_ms,
            seq: self.seq,
            status: self.status,
            rc: rc_reading(self.rc),
            attitude: self.attitude,
            rates: self.rates,
            battery: self.battery,
            altitude: self.altitude,
            gps: self.gps,
            link: self.link,
            cpu_load: self.cpu_load,
            last_event: self.last_event,
        }
    }
}

/// The timestamp is given under both of its names.
pub open spec fn timestamp_conflict() -> DecodeError {
    DecodeError { field: "as_of_ms", fault: Fault::Conflict }
}

/// The timestamp among the members `m`. It goes by two names, `as_of_ms`
/// and the older `ts_ms`, and is required under exactly one of them.
pub open spec fn timestamp_of(m: Seq<Member>) -> Result<u64, DecodeError> {
    let current = member_at(m, "as_of_ms"@);
    let older = member_at(m, "ts_ms"@);
    if current is Some && older is Some {
        Err(timestamp_conflict())
    } else if current is Some {
        required_value(unsigned_at(m, "as_of_ms"@, MAX_U64), "as_of_ms")
    } else {
        required_value(unsigned_at(m, "ts_ms"@, MAX_U64), "as_of_ms")
    }
}

/// Decodes the timestamp.
pub fn decode_timestamp(m: &Vec<Member>) -> (r: Result<u64, DecodeError>)
    ensures
        r == timestamp_of(m@),
{
    let current = lookup(m, "as_of_ms").is_some();
    let older = lookup(m, "ts_ms").is_some();
    if current && older {
        Err(DecodeError { field: "as_of_ms", fault: Fault::Conflict })
    } else if current {
        require(read_unsigned(m, "as_of_ms", MAX_U64), "as_of_ms")
    } else {
        require(read_unsigned(m, "ts_ms", MAX_U64), "as_of_ms")
    }
}

/// The snapshot that the members `m` of a document decode to.
pub open spec fn snapshot_of_members(m: Seq<Member>) -> Result<SnapshotView, DecodeError> {
    let as_of = timestamp_of(m);
    let seq = defaulted_value(unsigned_at(m, "seq"@, MAX_U64), "seq", 0);
    let status_entry = member_at(m, "status"@);
    let status = required_block(status_entry, "status", status_of(members_of(status_entry)));
    let rc_entry = member_at(m, "rc"@);
    let rc = optional_block(rc_entry, "rc", rc_of(members_of(rc_entry)));
    let attitude_entry = member_at(m, "attitude"@);
    let attitude = optional_block(
        attitude_entry,
        "attitude",
        attitude_of(members_of(attitude_entry)),
    );
    let rates_entry = member_at(m, "rates"@);
    let rates = optional_block(rates_entry, "rates", rates_of(members_of(rates_entry)));
    let battery_entry = member_at(m, "battery"@);
    let battery = optional_block(battery_entry, "battery", battery_of(members_of(battery_entry)));
    let altitude_entry = member_at(m, "altitude"@);
    let altitude = optional_block(
        altitude_entry,
        "altitude",
        altitude_of(members_of(altitude_entry)),
    );
    let gps_entry = member_at(m, "gps"@);
    let gps = optional_block(gps_entry, "gps", gps_of(members_of(gps_entry)));
    let link_entry = member_at(m, "link"@);
    let link = optional_block(link_entry, "link", link_of(members_of(link_entry)));
    let cpu_load = optional_value(unsigned_at(m, "cpu_load"@, MAX_U8), "cpu_load");
    let event_entry = member_at(m, "last_event"@);
    let last_event = optional_block(event_entry, "last_event", event_of(members_of(event_entry)));
    if as_of is Err {
        Err(as_of->Err_0)
    } else if seq is Err {
        Err(seq->Err_0)
    } else if status is Err {
        Err(status->Err_0)
    } else if rc is Err {
        Err(rc->Err_0)
    } else if attitude is Err {
        Err(attitude->Err_0)
    } else if rates is Err {
        Err(rates->Err_0)
    } else if battery is Err {
        Err(battery->Err_0)
    } else if altitude is Err {
        Err(altitude->Err_0)
    } else if gps is Err {
        Err(gps->Err_0)
    } else if link is Err {
        Err(link->Err_0)
    } else if cpu_load is Err {
        Err(cpu_load->Err_0)
    } else if last_event is Err {
        Err(last_event->Err_0)
    } else {
        Ok(
            SnapshotView {
                as_of_ms: as_of->Ok_0,
                seq: seq->Ok_0,
                status: status->Ok_0,
                rc: rc->Ok_0,
                attitude: attitude->Ok_0,
                rates: rates->Ok_0,
                battery: battery->Ok_0,
                altitude: altitude->Ok_0,
                gps: gps->Ok_0,
                link: link->Ok_0,
                cpu_load: narrowed8(cpu_load->Ok_0),
                last_event: last_event->Ok_0,
            },
        )
    }
}

/// The document is no object.
pub open spec fn not_a_document() -> DecodeError {
    DecodeError { field: "document", fault: Fault::Mistyped }
}

/// The snapshot that a document decodes to.
pub open spec fn snapshot_of(document: Json) -> Result<SnapshotView, DecodeError> {
    match document {
        Json::Object(members) => snapshot_of_members(members@),
        _ => Err(not_a_document()),
    }
}

/// Decodes the members of a document into a snapshot.
pub fn decode_members(m: &Vec<Member>) -> (r: Result<TelemetrySnapshot, DecodeError>)
    ensures
        match r {
            Ok(snapshot) => snapshot_of_members(m@) == Ok::<SnapshotView, DecodeError>(snapshot@),
            Err(e) => snapshot_of_members(m@) == Err::<SnapshotView, DecodeError>(e),
        },
{
    let as_of_ms = decode_timestamp(m)?;
    let seq = require_or(read_unsigned(m, "seq", MAX_U64), "seq", 0)?;
    let status = match lookup(m, "status") {
        None => {
            return Err(DecodeError { field: "status", fault: Fault::Missing });
        },
        Some(Json::Object(inner)) => decode_status(inner)?,
        Some(_) => {
            return Err(DecodeError { field: "status", fault: Fault::Mistyped });
        },
    };
    let rc = match lookup(m, "rc") {
        None => None,
        Some(Json::Null) => None,
        Some(Json::Object(inner)) => Some(decode_rc(inner)?),
        Some(_) => {
            return Err(DecodeError { field: "rc", fault: Fault::Mistyped });
        },
    };
    let attitude = match lookup(m, "attitude") {
        None => None,
        Some(Json::Null) => None,
        Some(Json::Object(inner)) => Some(decode_attitude(inner)?),
        Some(_) => {
            return Err(DecodeError { field: "attitude", fault: Fault::Mistyped });
        },
    };
    let rates = match lookup(m, "rates") {
        None => None,
        Some(Json::Null) => None,
        Some(Json::Object(inner)) => Some(decode_rates(inner)?),
        Some(_) => {
            return Err(DecodeError { field: "rates", fault: Fault::Mistyped });
        },
    };
    let battery = match lookup(m, "battery") {
        None => None,
        Some(Json::Null) => None,
        Some(Json::Object(inner)) => Some(decode_battery(inner)?),
        Some(_) => {
            return Err(DecodeError { field: "battery", fault: Fault::Mistyped });
        },
    };
    let altitude = match lookup(m, "altitude") {
        None => None,
        Some(Json::Null) => None,
        Some(Json::Object(inner)) => Some(decode_altitude(inner)?),
        Some(_) => {
            return Err(DecodeError { field: "altitude", fault: Fault::Mistyped });
        },
    };
    let gps = match lookup(m, "gps") {
        None => None,
        Some(Json::Null) => None,
        Some(Json::Object(inner)) => Some(decode_gps(inner)?),
        Some(_) => {
            return Err(DecodeError { field: "gps", fault: Fault::Mistyped });
        },
    };
    let link = match lookup(m, "link") {
        None => None,
        Some(Json::Null) => None,
        Some(Json::Object(inner)) => Some(decode_link(inner)?),
        Some(_) => {
            return Err(DecodeError { field: "link", fault: Fault::Mistyped });
        },
    };
    let cpu_load = match accept(read_unsigned(m, "cpu_load", MAX_U8), "cpu_load")? {
        Some(v) => Some(v as u8),
        None => None,
    };
    let last_event = match lookup(m, "last_event") {
        None => None,
        Some(Json::Null) => None,
        Some(Json::Object(inner)) => Some(decode_event(inner)?),
        Some(_) => {
            return Err(DecodeError { field: "last_event", fault: Fault::Mistyped });
        },
    };
    Ok(
        TelemetrySnapshot {
            as_of_ms,
            seq,
            status,
            rc,
            attitude,
            rates,
            battery,
            altitude,
            gps,
            link,
            cpu_load,
            last_event,
        },
    )
}

/// Decodes a document into a snapshot.
pub fn snapshot_from_json(document: &Json) -> (r: Result<TelemetrySnapshot, DecodeError>)
    ensures
        match r {
            Ok(snapshot) => snapshot_of(*document) == Ok::<SnapshotView, DecodeError>(snapshot@),
            Err(e) => snapshot_of(*document) == Err::<SnapshotView, DecodeError>(e),
        },
{
    match document {
        Json::Object(members) => decode_members(members),
        _ => Err(DecodeError { field: "document", fault: Fault::Mistyped }),
    }
}

impl Fault {
    /// What the fault is called in a description.
    pub open spec fn label_text(self) -> Seq<char> {
        match self {
            Fault::Missing => "missing field: "@,
            Fault::Mistyped => "wrong kind of value: "@,
            Fault::Conflict => "given twice: "@,
            Fault::UnknownKind => "unknown kind of event: "@,
        }
    }

    /// What the fault is called in a description.
    pub fn label(self) -> (r: &'static str)
        ensures
            r@ == self.label_text(),
    {
        match self {
            Fault::Missing => "missing field: ",
            Fault::Mistyped => "wrong kind of value: ",
            Fault::Conflict => "given twice: ",
            Fault::UnknownKind => "unknown kind of event: ",
        }
    }
}

impl DecodeError {
    /// The text that [`DecodeError::describe`] returns.
    pub open spec fn describe_text(self) -> Seq<char> {
        self.fault.label_text() + self.field@
    }

    /// A description of the failure: the fault, then the field.
    pub fn describe(&self) -> (r: String)
        ensures
            r@ == self.describe_text(),
    {
        let mut text = String::from_str(self.fault.label());
        text.append(self.field);
        text
    }
}

/// The protocol failure that a document which is no snapshot is reported as.
pub open spec fn rejected(e: DecodeError) -> Failure {
    Failure::Protocol { status: None, detail: e.describe_text() }
}

/// What decoding a document comes to for the caller of the facade: the
/// snapshot, or a protocol failure that describes the field at fault.
pub fn snapshot_outcome(document: &Json) -> (r: Result<TelemetrySnapshot, DroneError>)
    ensures
        match snapshot_of(*document) {
            Ok(view) => r matches Ok(snapshot) && snapshot@ == view,
            Err(e) => failed_with(r, rejected(e)),
        },
{
    match snapshot_from_json(document) {
        Ok(snapshot) => Ok(snapshot),
        Err(e) => Err(DroneError::Protocol { status: None, detail: e.describe() }),
    }
}

/// Decodes the text of a document into a snapshot. A text that is not
/// well-formed JSON and a document that is no snapshot are both protocol
/// failures without a status.
pub fn decode_snapshot(text: &str) -> (r: Result<TelemetrySnapshot, DroneError>)
    ensures
        match parsed(text@) {
            Some(document) => match snapshot_of(document) {
                Ok(view) => r matches Ok(snapshot) && snapshot@ == view,
                Err(e) => failed_with(r, rejected(e)),
            },
            None => failed_to_decode(r),
        },
{
    match parse_document(text) {
        Ok(document) => snapshot_outcome(&document),
        Err(why) => Err(DroneError::Protocol { status: None, detail: why }),
    }
}

/// Two objects agree on every key but the two names of the timestamp.
pub open spec fn agree_but_on_timestamp(a: Seq<Member>, b: Seq<Member>) -> bool {
    forall|key: Seq<char>|
        key != "as_of_ms"@ && key != "ts_ms"@ ==> #[trigger] member_at(a, key) == member_at(b, key)
}

/// The names of the fields of a snapshot differ from one another.
pub proof fn lemma_field_names_differ()
    ensures
        "as_of_ms"@ != "ts_ms"@,
        "seq"@ != "as_of_ms"@ && "seq"@ != "ts_ms"@,
        "status"@ != "as_of_ms"@ && "status"@ != "ts_ms"@,
        "rc"@ != "as_of_ms"@ && "rc"@ != "ts_ms"@,
        "attitude"@ != "as_of_ms"@ && "attitude"@ != "ts_ms"@,
        "rates"@ != "as_of_ms"@ && "rates"@ != "ts_ms"@,
        "battery"@ != "as_of_ms"@ && "battery"@ != "ts_ms"@,
        "altitude"@ != "as_of_ms"@ && "altitude"@ != "ts_ms"@,
        "gps"@ != "as_of_ms"@ && "gps"@ != "ts_ms"@,
        "link"@ != "as_of_ms"@ && "link"@ != "ts_ms"@,
        "cpu_load"@ != "as_of_ms"@ && "cpu_load"@ != "ts_ms"@,
        "last_event"@ != "as_of_ms"@ && "last_event"@ != "ts_ms"@,
{
    reveal_strlit("as_of_ms");
    reveal_strlit("ts_ms");
    reveal_strlit("seq");
    reveal_strlit("status");
    reveal_strlit("rc");
    reveal_strlit("attitude");
    reveal_strlit("rates");
    reveal_strlit("battery");
    reveal_strlit("altitude");
    reveal_strlit("gps");
    reveal_strlit("link");
    reveal_strlit("cpu_load");
    reveal_strlit("last_event");
    assert("attitude"@[1] != "as_of_ms"@[1]);
    assert("altitude"@[1] != "as_of_ms"@[1]);
    assert("cpu_load"@[0] != "as_of_ms"@[0]);
    assert("rates"@[0] != "ts_ms"@[0]);
}

/// A document that gives the timestamp as `ts_ms` and one that gives the
/// same value as `as_of_ms`, and that agree on every other member, decode
/// to the same: the same snapshot, or the same failure.
pub proof fn lemma_timestamp_names_are_aliases(a: Seq<Member>, b: Seq<Member>, value: Json)
    requires
        agree_but_on_timestamp(a, b),
        member_at(a, "as_of_ms"@) == Some(value),
        member_at(a, "ts_ms"@) is None,
        member_at(b, "ts_ms"@) == Some(value),
        member_at(b, "as_of_ms"@) is None,
    ensures
        snapshot_of_members(a) == snapshot_of_members(b),
{
    lemma_field_names_differ();
    assert(timestamp_of(a) == timestamp_of(b));
    assert(member_at(a, "seq"@) == member_at(b, "seq"@));
    assert(member_at(a, "status"@) == member_at(b, "status"@));
    assert(member_at(a, "rc"@) == member_at(b, "rc"@));
    assert(member_at(a, "attitude"@) == member_at(b, "attitude"@));
    assert(member_at(a, "rates"@) == member_at(b, "rates"@));
    assert(member_at(a, "battery"@) == member_at(b, "battery"@));
    assert(member_at(a, "altitude"@) == member_at(b, "altitude"@));
    assert(member_at(a, "gps"@) == member_at(b, "gps"@));
    assert(member_at(a, "link"@) == member_at(b, "link"@));
    assert(member_at(a, "cpu_load"@) == member_at(b, "cpu_load"@));
    assert(member_at(a, "last_event"@) == member_at(b, "last_event"@));
}

/// A document that leaves out the position fix, the radio channels, the
/// rates, the altitude, the link quality, the processor load and the last
/// event decodes exactly when its timestamp, sequence number, status,
/// attitude and battery do, and then those seven are absent from the
/// snapshot.
pub proof fn lemma_omitted_blocks_are_absent(m: Seq<Member>)
    requires
        member_at(m, "gps"@) is None,
        member_at(m, "rc"@) is None,
        member_at(m, "rates"@) is None,
        member_at(m, "altitude"@) is None,
        member_at(m, "link"@) is None,
        member_at(m, "cpu_load"@) is None,
        member_at(m, "last_event"@) is None,
    ensures
        snapshot_of_members(m) is Ok <==> {
            &&& timestamp_of(m) is Ok
            &&& defaulted_value(unsigned_at(m, "seq"@, MAX_U64), "seq", 0) is Ok
            &&& required_block(
                member_at(m, "status"@),
                "status",
                status_of(members_of(member_at(m, "status"@))),
            ) is Ok
            &&& optional_block(
                member_at(m, "attitude"@),
                "attitude",
                attitude_of(members_of(member_at(m, "attitude"@))),
            ) is Ok
            &&& optional_block(
                member_at(m, "battery"@),
                "battery",
                battery_of(members_of(member_at(m, "battery"@))),
            ) is Ok
        },
        snapshot_of_members(m) matches Ok(snapshot) ==> {
            &&& snapshot.gps is None
            &&& snapshot.rc is None
            &&& snapshot.rates is None
            &&& snapshot.altitude is None
            &&& snapshot.link is None
            &&& snapshot.cpu_load is None
            &&& snapshot.last_event is None
        },
{
}

/// A document with nothing but a timestamp and a well-formed status block
/// is a snapshot: every other field may be left out.
pub proof fn lemma_smallest_snapshot(m: Seq<Member>)
    requires
        timestamp_of(m) is Ok,
        member_at(m, "status"@) is Some,
        member_at(m, "status"@)->Some_0 is Object,
        status_of(members_of(member_at(m, "status"@))) is Ok,
        member_at(m, "seq"@) is None,
        member_at(m, "attitude"@) is None,
        member_at(m, "battery"@) is None,
        member_at(m, "gps"@) is None,
        member_at(m, "rc"@) is None,
        member_at(m, "rates"@) is None,
        member_at(m, "altitude"@) is None,
        member_at(m, "link"@) is None,
        member_at(m, "cpu_load"@) is None,
        member_at(m, "last_event"@) is None,
    ensures
        snapshot_of_members(m) is Ok,
        snapshot_of_members(m)->Ok_0.seq == 0,
        snapshot_of_members(m)->Ok_0.as_of_ms == timestamp_of(m)->Ok_0,
{
}

/// Whether `key` is one of the names that the decoder looks for in a
/// document.
pub open spec fn is_snapshot_field(key: Seq<char>) -> bool {
    ||| key == "as_of_ms"@
    ||| key == "ts_ms"@
    ||| key == "seq"@
    ||| key == "status"@
    ||| key == "rc"@
    ||| key == "attitude"@
    ||| key == "rates"@
    ||| key == "battery"@
    ||| key == "altitude"@
    ||| key == "gps"@
    ||| key == "link"@
    ||| key == "cpu_load"@
    ||| key == "last_event"@
}

/// A member that the wire contract does not name changes nothing: a
/// document decodes to the same with it as without it.
pub proof fn lemma_unknown_member_is_ignored(m: Seq<Member>, extra: Member)
    requires
        !is_snapshot_field(extra.key@),
    ensures
        snapshot_of_members(seq![extra] + m) == snapshot_of_members(m),
{
    let with_extra = seq![extra] + m;
    assert forall|key: Seq<char>| is_snapshot_field(key) implies member_at(with_extra, key)
        == member_at(m, key) by {
        crate::json::lemma_member_in_front(m, extra, key);
    }
    assert(is_snapshot_field("as_of_ms"@));
    assert(is_snapshot_field("ts_ms"@));
    assert(is_snapshot_field("seq"@));
    assert(is_snapshot_field("status"@));
    assert(is_snapshot_field("rc"@));
    assert(is_snapshot_field("attitude"@));
    assert(is_snapshot_field("rates"@));
    assert(is_snapshot_field("battery"@));
    assert(is_snapshot_field("altitude"@));
    assert(is_snapshot_field("gps"@));
    assert(is_snapshot_field("link"@));
    assert(is_snapshot_field("cpu_load"@));
    assert(is_snapshot_field("last_event"@));
    assert(timestamp_of(with_extra) == timestamp_of(m));
}

} // verus!
