//! The canonical date and time without a zone, through which every zoned
//! value passes, and its two wire formats: days and ticks since 1900 inbound,
//! microseconds since 2000 outbound.

use crate::calendar::{
    day_number_from_ymd, gregorian_date, gregorian_day_number, new_year_day, new_year_day_number,
    ymd_from_day_number,
};
use crate::fault::{Fault, IsNull};
use crate::ticks::{tick_millis, ticks_to_ms};
use crate::type_info::{resolve, wire_type, HostKind, TypeInfo};
use crate::wire::{le_bytes_i64, put_i64_le, read_days, read_ticks, wire_days, wire_ticks};
use vstd::arithmetic::div_mod::lemma_fundamental_div_mod_converse;
use vstd::prelude::*;

verus! {

/// Seconds in a day.
pub const SECS_PER_DAY: u32 = 86_400;

/// Nanoseconds in a second.
pub const NANOS_PER_SEC: u32 = 1_000_000_000;

/// Nanoseconds in a millisecond.
pub const NANOS_PER_MILLI: u32 = 1_000_000;

/// Nanoseconds in a microsecond.
pub const NANOS_PER_MICRO: u32 = 1_000;

/// Milliseconds in a day.
pub const MILLIS_PER_DAY: i64 = 86_400_000;

/// Nanoseconds in a day.
pub const NANOS_PER_DAY: i64 = 86_400_000_000_000;

/// The year of the epoch of the inbound format, which counts from its first
/// of January at midnight.
pub const INBOUND_EPOCH_YEAR: i32 = 1900;

/// The year of the epoch of the outbound format, which counts from its first
/// of January at midnight.
pub const OUTBOUND_EPOCH_YEAR: i32 = 2000;

/// The instant, in nanoseconds since midnight at the start of day 0, that
/// lies `secs` seconds and `nanos` nanoseconds into the day `day`.
pub open spec fn instant_at(day: int, secs: int, nanos: int) -> int {
    day * NANOS_PER_DAY + secs * NANOS_PER_SEC + nanos
}

/// Whether a date and time can hold `instant`: its day number is an `i32`.
pub open spec fn representable(instant: int) -> bool {
    i32::MIN * NANOS_PER_DAY <= instant < (i32::MAX + 1) * NANOS_PER_DAY
}

/// Whether `secs` seconds and `nanos` nanoseconds name a time of day. A
/// nanosecond count of a second or more stands for a leap second and may
/// follow second 59 of a minute only.
pub open spec fn valid_time_of_day(secs: int, nanos: int) -> bool {
    &&& 0 <= secs < SECS_PER_DAY
    &&& 0 <= nanos < 2 * NANOS_PER_SEC
    &&& nanos >= NANOS_PER_SEC ==> secs % 60 == 59
}

/// Whether the four numbers name a time of day on the clock.
pub open spec fn valid_clock_time(hour: int, min: int, sec: int, nano: int) -> bool {
    &&& 0 <= hour < 24
    &&& 0 <= min < 60
    &&& 0 <= sec < 60
    &&& 0 <= nano < 2 * NANOS_PER_SEC
    &&& nano >= NANOS_PER_SEC ==> sec == 59
}

/// The instant of a calendar date and clock time, or `None` where the date or
/// the time does not exist or the instant cannot be held.
pub open spec fn civil_instant(
    year: i32,
    month: u32,
    day: u32,
    hour: u32,
    min: u32,
    sec: u32,
    nano: u32,
) -> Option<int> {
    match gregorian_day_number(year, month, day) {
        Some(number) => {
            let instant = instant_at(number as int, hour * 3600 + min * 60 + sec, nano as int);
            if valid_clock_time(hour as int, min as int, sec as int, nano as int) && representable(
                instant,
            ) {
                Some(instant)
            } else {
                None
            }
        },
        None => None,
    }
}

/// The instant that lies `days` days and `ticks` ticks after midnight at the
/// start of the day `epoch_day`, ticks rounded to milliseconds.
pub open spec fn instant_after(epoch_day: int, days: int, ticks: int) -> int {
    (epoch_day + days) * NANOS_PER_DAY + tick_millis(ticks) * NANOS_PER_MILLI
}

/// The instant that an inbound payload of eight bytes holds: a signed day
/// count and an unsigned tick count, both little-endian, since 1900-01-01
/// at midnight.
pub open spec fn inbound_instant(payload: Seq<u8>) -> int
    recommends
        payload.len() == 8,
{
    instant_after(
        new_year_day_number(INBOUND_EPOCH_YEAR),
        wire_days(payload),
        wire_ticks(payload),
    )
}

/// The instant where it can be held, the fault where it cannot.
pub open spec fn held_or_overflow(instant: int) -> Result<int, Fault> {
    if representable(instant) {
        Ok(instant)
    } else {
        Err(Fault::RangeOverflow)
    }
}

/// What decoding `payload` gives: the instant, or the fault. A payload of
/// any length but eight is truncated.
pub open spec fn decoded_instant(payload: Seq<u8>) -> Result<int, Fault> {
    if payload.len() != 8 {
        Err(Fault::TruncatedPayload)
    } else {
        held_or_overflow(inbound_instant(payload))
    }
}

/// The whole microseconds in `nanos` nanoseconds, rounded toward zero.
pub open spec fn whole_micros(nanos: int) -> int {
    if nanos >= 0 {
        nanos / (NANOS_PER_MICRO as int)
    } else {
        -((-nanos) / (NANOS_PER_MICRO as int))
    }
}

/// The whole microseconds that have passed at `instant` since midnight at
/// the start of the day `epoch_day`; negative before it.
pub open spec fn micros_between(instant: int, epoch_day: int) -> int {
    whole_micros(instant - epoch_day * NANOS_PER_DAY)
}

/// The microsecond count of the outbound format: those passed at `instant`
/// since 2000-01-01 at midnight.
pub open spec fn outbound_micros(instant: int) -> int {
    micros_between(instant, new_year_day_number(OUTBOUND_EPOCH_YEAR))
}

/// What encoding a date and time at `instant` gives: the eight bytes of its
/// microsecond count as a little-endian signed integer, or the fault where
/// the count does not fit.
pub open spec fn encoded_instant(instant: int) -> Result<Seq<u8>, Fault> {
    if i64::MIN <= outbound_micros(instant) <= i64::MAX {
        Ok(le_bytes_i64(outbound_micros(instant)))
    } else {
        Err(Fault::RangeOverflow)
    }
}

/// Whether an encoder that was to append `expected` to `before` did so: on
/// success `after` is `before` with the bytes appended and the value is
/// reported as not null; on a fault nothing was appended.
pub open spec fn appended(
    expected: Result<Seq<u8>, Fault>,
    before: Seq<u8>,
    after: Seq<u8>,
    result: Result<IsNull, Fault>,
) -> bool {
    match expected {
        Ok(bytes) => result == Ok::<IsNull, Fault>(IsNull::No) && after == before + bytes,
        Err(fault) => result == Err::<IsNull, Fault>(fault) && after == before,
    }
}

/// An instant splits in one way into a day, a second of the day and a
/// nanosecond of the second.
pub proof fn lemma_instant_parts(day: int, secs: int, nanos: int)
    requires
        0 <= secs < SECS_PER_DAY,
        0 <= nanos < NANOS_PER_SEC,
    ensures
        instant_at(day, secs, nanos) / (NANOS_PER_DAY as int) == day,
        instant_at(day, secs, nanos) % (NANOS_PER_DAY as int) == secs * NANOS_PER_SEC + nanos,
        (instant_at(day, secs, nanos) % (NANOS_PER_DAY as int)) / (NANOS_PER_SEC as int) == secs,
        instant_at(day, secs, nanos) % (NANOS_PER_SEC as int) == nanos,
{
    let instant = instant_at(day, secs, nanos);
    let in_day = secs * NANOS_PER_SEC + nanos;
    lemma_fundamental_div_mod_converse(instant, NANOS_PER_DAY as int, day, in_day);
    lemma_fundamental_div_mod_converse(in_day, NANOS_PER_SEC as int, secs, nanos);
    lemma_fundamental_div_mod_converse(
        instant,
        NANOS_PER_SEC as int,
        day * SECS_PER_DAY + secs,
        nanos,
    );
}

/// Every instant is made of its day, its second of the day and its
/// nanosecond of the second.
pub proof fn lemma_instant_from_parts(instant: int)
    ensures
        instant == instant_at(
            instant / (NANOS_PER_DAY as int),
            (instant % (NANOS_PER_DAY as int)) / (NANOS_PER_SEC as int),
            instant % (NANOS_PER_SEC as int),
        ),
        0 <= (instant % (NANOS_PER_DAY as int)) / (NANOS_PER_SEC as int) < SECS_PER_DAY,
        0 <= instant % (NANOS_PER_SEC as int) < NANOS_PER_SEC,
{
    let day = instant / (NANOS_PER_DAY as int);
    let in_day = instant % (NANOS_PER_DAY as int);
    let secs = in_day / (NANOS_PER_SEC as int);
    let nanos = in_day % (NANOS_PER_SEC as int);
    assert(instant == day * NANOS_PER_DAY + in_day && 0 <= in_day < NANOS_PER_DAY);
    assert(in_day == secs * NANOS_PER_SEC + nanos && 0 <= nanos < NANOS_PER_SEC);
    lemma_instant_parts(day, secs, nanos);
}

/// A date and time without a zone, to the nanosecond: a day of the proleptic
/// Gregorian calendar by its number and a time within that day.
///
/// Its view is its instant: the nanoseconds from midnight at the start of
/// day 0 to it.
#[derive(Clone, Copy, Debug, PartialEq, Eq, Structural)]
pub struct NaiveDateTime {
    day: i32,
    secs: u32,
    nanos: u32,
}

impl View for NaiveDateTime {
    type V = int;

    closed spec fn view(&self) -> int {
        instant_at(self.day as int, self.secs as int, self.nanos as int)
    }
}

/// Whether `made` is what a decoder was to make: a value at the expected
/// instant, or the expected fault.
pub open spec fn made_at(made: Result<NaiveDateTime, Fault>, expected: Result<int, Fault>) -> bool {
    match expected {
        Ok(instant) => made matches Ok(value) && value@ == instant,
        Err(fault) => made == Err::<NaiveDateTime, Fault>(fault),
    }
}

impl NaiveDateTime {
    /// The invariant of the type: the time of day is less than a day and the
    /// nanoseconds less than a second.
    #[verifier::type_invariant]
    pub closed spec fn wf(self) -> bool {
        self.secs < SECS_PER_DAY && self.nanos < NANOS_PER_SEC
    }

    /// The instant of a well-formed value can be held, and no other
    /// well-formed value has the same instant.
    pub proof fn lemma_instant_identifies(self, other: NaiveDateTime)
        requires
            self.wf(),
            other.wf(),
        ensures
            representable(self@),
            self@ == other@ ==> self == other,
    {
        lemma_instant_parts(self.day as int, self.secs as int, self.nanos as int);
        lemma_instant_parts(other.day as int, other.secs as int, other.nanos as int);
    }

    /// Every instant that can be held is the instant of a well-formed value.
    pub proof fn lemma_instant_is_held(instant: int) -> (held: NaiveDateTime)
        requires
            representable(instant),
        ensures
            held.wf(),
            held@ == instant,
    {
        lemma_instant_from_parts(instant);
        NaiveDateTime {
            day: (instant / (NANOS_PER_DAY as int)) as i32,
            secs: ((instant % (NANOS_PER_DAY as int)) / (NANOS_PER_SEC as int)) as u32,
            nanos: (instant % (NANOS_PER_SEC as int)) as u32,
        }
    }

    /// The number of the day.
    pub fn day_number(&self) -> (day: i32)
        ensures
            day == self@ / (NANOS_PER_DAY as int),
    {
        proof {
            use_type_invariant(self);
            lemma_instant_parts(self.day as int, self.secs as int, self.nanos as int);
        }
        self.day
    }

    /// The seconds of the time of day, counted from midnight.
    pub fn seconds_from_midnight(&self) -> (secs: u32)
        ensures
            secs == (self@ % (NANOS_PER_DAY as int)) / (NANOS_PER_SEC as int),
            secs < SECS_PER_DAY,
    {
        proof {
            use_type_invariant(self);
            lemma_instant_parts(self.day as int, self.secs as int, self.nanos as int);
        }
        self.secs
    }

    /// The nanoseconds since the last whole second.
    pub fn nanosecond(&self) -> (nanos: u32)
        ensures
            nanos == self@ % (NANOS_PER_SEC as int),
            nanos < NANOS_PER_SEC,
    {
        proof {
            use_type_invariant(self);
            lemma_instant_parts(self.day as int, self.secs as int, self.nanos as int);
        }
        self.nanos
    }

    /// The calendar date of the day as year, month and day, or `None` where
    /// the day is out of the calendar's range.
    pub fn ymd(&self) -> (date: Option<(i32, u32, u32)>)
        ensures
            date == gregorian_date((self@ / (NANOS_PER_DAY as int)) as i32),
    {
        ymd_from_day_number(self.day_number())
    }

    /// Makes the date and time that lies `secs` seconds and `nanos`
    /// nanoseconds into the day `day`. A leap second, written as a nanosecond
    /// count of a second or more, is held as the instant it names, which is
    /// also that of the following second.
    pub fn from_day_time(day: i32, secs: u32, nanos: u32) -> (made: Option<NaiveDateTime>)
        ensures
            made is Some <==> valid_time_of_day(secs as int, nanos as int) && representable(
                instant_at(day as int, secs as int, nanos as int),
            ),
            made matches Some(value) ==> value@ == instant_at(day as int, secs as int, nanos as int),
    {
        if secs >= SECS_PER_DAY || nanos >= 2 * NANOS_PER_SEC {
            return None;
        }
        if nanos < NANOS_PER_SEC {
            return Some(NaiveDateTime { day, secs, nanos });
        }
        if secs % 60 != 59 {
            return None;
        }
        let rest: u32 = nanos - NANOS_PER_SEC;
        if secs + 1 < SECS_PER_DAY {
            Some(NaiveDateTime { day, secs: secs + 1, nanos: rest })
        } else if day < i32::MAX {
            Some(NaiveDateTime { day: day + 1, secs: 0, nanos: rest })
        } else {
            None
        }
    }

    /// Makes the date and time of a calendar date and a clock time to the
    /// nanosecond.
    pub fn from_ymd_hms_nano(
        year: i32,
        month: u32,
        day: u32,
        hour: u32,
        min: u32,
        sec: u32,
        nano: u32,
    ) -> (made: Option<NaiveDateTime>)
        ensures
            made is Some <==> civil_instant(year, month, day, hour, min, sec, nano) is Some,
            made matches Some(value) ==> civil_instant(year, month, day, hour, min, sec, nano)
                == Some(value@),
    {
        if hour >= 24 || min >= 60 || sec >= 60 {
            return None;
        }
        match day_number_from_ymd(year, month, day) {
            Some(number) => NaiveDateTime::from_day_time(number, hour * 3600 + min * 60 + sec, nano),
            None => None,
        }
    }

    /// Makes the date and time of a calendar date and a clock time to the
    /// second.
    pub fn from_ymd_hms(year: i32, month: u32, day: u32, hour: u32, min: u32, sec: u32) -> (made:
        Option<NaiveDateTime>)
        ensures
            made is Some <==> civil_instant(year, month, day, hour, min, sec, 0) is Some,
            made matches Some(value) ==> civil_instant(year, month, day, hour, min, sec, 0)
                == Some(value@),
    {
        NaiveDateTime::from_ymd_hms_nano(year, month, day, hour, min, sec, 0)
    }

    /// Makes the date and time that lies `days` days and `ticks` ticks after
    /// midnight at the start of the day `epoch_day`.
    pub fn after_epoch(epoch_day: i32, days: i32, ticks: u32) -> (made: Result<
        NaiveDateTime,
        Fault,
    >)
        ensures
            made_at(
                made,
                held_or_overflow(instant_after(epoch_day as int, days as int, ticks as int)),
            ),
    {
        let millis: i64 = ticks_to_ms(ticks);
        let carry: i64 = millis / MILLIS_PER_DAY;
        let in_day: i64 = millis % MILLIS_PER_DAY;
        let day: i64 = epoch_day as i64 + days as i64 + carry;
        let secs: u32 = (in_day / 1000) as u32;
        let nanos: u32 = ((in_day % 1000) * 1_000_000) as u32;
        proof {
            lemma_instant_parts(day as int, secs as int, nanos as int);
            assert(instant_at(day as int, secs as int, nanos as int) == instant_after(
                epoch_day as int,
                days as int,
                ticks as int,
            ));
        }
        if day < i32::MIN as i64 || day > i32::MAX as i64 {
            return Err(Fault::RangeOverflow);
        }
        Ok(NaiveDateTime { day: day as i32, secs, nanos })
    }

    /// The whole microseconds that have passed since midnight at the start
    /// of the day `epoch_day`, or `None` where they do not fit.
    pub fn micros_since(&self, epoch_day: i32) -> (micros: Option<i64>)
        ensures
            micros is Some <==> i64::MIN <= micros_between(self@, epoch_day as int) <= i64::MAX,
            micros matches Some(count) ==> count == micros_between(self@, epoch_day as int),
    {
        proof {
            use_type_invariant(self);
        }
        let days: i128 = self.day as i128 - epoch_day as i128;
        let elapsed: i128 = days * 86_400_000_000_000 + self.secs as i128 * 1_000_000_000
            + self.nanos as i128;
        let micros: i128 = if elapsed >= 0 {
            elapsed / 1000
        } else {
            -((-elapsed) / 1000)
        };
        if micros < i64::MIN as i128 || micros > i64::MAX as i128 {
            None
        } else {
            Some(micros as i64)
        }
    }

    /// The wire type of a date and time.
    pub fn type_info() -> (info: TypeInfo)
        ensures
            info == wire_type(HostKind::NaiveDateTime),
    {
        resolve(HostKind::NaiveDateTime)
    }

    /// Appends the outbound bytes of the value to `buf`: its microseconds
    /// since 2000-01-01 at midnight as a little-endian signed 64-bit integer.
    /// Where the count does not fit, nothing is appended and the fault is
    /// `RangeOverflow`.
    pub fn encode_by_ref(&self, buf: &mut Vec<u8>) -> (result: Result<IsNull, Fault>)
        ensures
            appended(encoded_instant(self@), old(buf)@, final(buf)@, result),
    {
        let epoch_day: i32 = new_year_day(OUTBOUND_EPOCH_YEAR);
        match self.micros_since(epoch_day) {
            Some(micros) => {
                put_i64_le(buf, micros);
                Ok(IsNull::No)
            },
            None => Err(Fault::RangeOverflow),
        }
    }

    /// Encodes a value that may be absent. An absent value is SQL `NULL`: it
    /// is reported as such, nothing is appended, and no value is encoded.
    pub fn encode_nullable(value: Option<&NaiveDateTime>, buf: &mut Vec<u8>) -> (result: Result<
        IsNull,
        Fault,
    >)
        ensures
            value is None ==> result == Ok::<IsNull, Fault>(IsNull::Yes) && final(buf)@ == old(
                buf,
            )@,
            value matches Some(present) ==> appended(
                encoded_instant(present@),
                old(buf)@,
                final(buf)@,
                result,
            ),
    {
        match value {
            Some(present) => present.encode_by_ref(buf),
            None => Ok(IsNull::Yes),
        }
    }

    /// Reads a date and time from an inbound payload: a signed 32-bit day
    /// count since 1900-01-01 and an unsigned 32-bit tick count within the
    /// day, both little-endian. A payload of any other length than eight
    /// bytes gives `TruncatedPayload`; an instant that cannot be held gives
    /// `RangeOverflow`.
    pub fn decode(value: &[u8]) -> (made: Result<NaiveDateTime, Fault>)
        ensures
            made_at(made, decoded_instant(value@)),
            value@.len() != 8 ==> made == Err::<NaiveDateTime, Fault>(Fault::TruncatedPayload),
    {
        if value.len() != 8 {
            return Err(Fault::TruncatedPayload);
        }
        let days: i32 = read_days(value);
        let ticks: u32 = read_ticks(value);
        let epoch_day: i32 = new_year_day(INBOUND_EPOCH_YEAR);
        NaiveDateTime::after_epoch(epoch_day, days, ticks)
    }
}

} // verus!
