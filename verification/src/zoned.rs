//! Dates and times with a zone. Each holds its instant as a date and time in
//! UTC; encoding and decoding pass through that value, and a zone adds only
//! its offset.

use crate::fault::{Fault, IsNull};
use crate::naive::{
    appended, decoded_instant, encoded_instant, instant_at, lemma_instant_from_parts,
    representable, NaiveDateTime, NANOS_PER_SEC, SECS_PER_DAY,
};
use crate::type_info::{resolve, wire_type, HostKind, TypeInfo};
use vstd::prelude::*;

verus! {

/// The offset of a zone from UTC, in seconds east of it and less than a day
/// either way. Its view is that number of seconds.
#[derive(Clone, Copy, Debug, PartialEq, Eq, Structural)]
pub struct UtcOffset {
    secs: i32,
}

impl View for UtcOffset {
    type V = int;

    closed spec fn view(&self) -> int {
        self.secs as int
    }
}

impl UtcOffset {
    /// The invariant of the type: the offset is less than a day either way.
    #[verifier::type_invariant]
    pub closed spec fn wf(self) -> bool {
        -(SECS_PER_DAY as int) < self.secs < SECS_PER_DAY as int
    }

    /// A well-formed offset is less than a day either way.
    pub proof fn lemma_bounds(self)
        requires
            self.wf(),
        ensures
            -(SECS_PER_DAY as int) < self@ < SECS_PER_DAY as int,
    {
    }

    /// Makes the offset of `secs` seconds east of UTC, or `None` for a day or
    /// more.
    pub fn east(secs: i32) -> (made: Option<UtcOffset>)
        ensures
            made is Some <==> -(SECS_PER_DAY as int) < secs < SECS_PER_DAY as int,
            made matches Some(offset) ==> offset@ == secs,
    {
        if -86_400 < secs && secs < 86_400 {
            Some(UtcOffset { secs })
        } else {
            None
        }
    }

    /// The seconds to add to a time in UTC to get the time in the zone.
    pub fn local_minus_utc(&self) -> (secs: i32)
        ensures
            secs == self@,
            -(SECS_PER_DAY as int) < secs < SECS_PER_DAY as int,
    {
        proof {
            use_type_invariant(self);
        }
        self.secs
    }
}

/// A date and time in UTC. Its view is its instant.
#[derive(Clone, Copy, Debug, PartialEq, Eq, Structural)]
pub struct DateTimeUtc {
    naive: NaiveDateTime,
}

impl View for DateTimeUtc {
    type V = int;

    closed spec fn view(&self) -> int {
        self.naive@
    }
}

/// Whether `made` is what a decoder of UTC values was to make: a value at the
/// expected instant, or the expected fault.
pub open spec fn made_utc_at(made: Result<DateTimeUtc, Fault>, expected: Result<int, Fault>) -> bool {
    match expected {
        Ok(instant) => made matches Ok(value) && value@ == instant,
        Err(fault) => made == Err::<DateTimeUtc, Fault>(fault),
    }
}

impl DateTimeUtc {
    /// The invariant of the type: the date and time is well-formed.
    #[verifier::type_invariant]
    pub closed spec fn wf(self) -> bool {
        self.naive.wf()
    }

    /// The date and time in UTC, without the zone.
    pub closed spec fn spec_naive_utc(&self) -> NaiveDateTime {
        self.naive
    }

    /// A well-formed value has a well-formed date and time in UTC, at its own
    /// instant, which identifies it.
    pub proof fn lemma_parts(self, other: DateTimeUtc)
        requires
            self.wf(),
            other.wf(),
        ensures
            self.spec_naive_utc().wf(),
            self.spec_naive_utc()@ == self@,
            self@ == other@ ==> self == other,
    {
        self.naive.lemma_instant_identifies(other.naive);
    }

    /// Labels a date and time as UTC.
    pub fn from_naive_utc(naive: NaiveDateTime) -> (made: DateTimeUtc)
        ensures
            made.spec_naive_utc() == naive,
            made@ == naive@,
    {
        proof {
            use_type_invariant(&naive);
        }
        DateTimeUtc { naive }
    }

    /// The date and time in UTC, without the zone.
    #[verifier::when_used_as_spec(spec_naive_utc)]
    pub fn naive_utc(&self) -> (naive: NaiveDateTime)
        ensures
            naive == self.spec_naive_utc(),
            naive@ == self@,
    {
        self.naive
    }

    /// The wire type of a date and time in UTC.
    pub fn type_info() -> (info: TypeInfo)
        ensures
            info == wire_type(HostKind::DateTimeUtc),
    {
        resolve(HostKind::DateTimeUtc)
    }

    /// Appends the outbound bytes of the value to `buf`: those of its date
    /// and time in UTC.
    pub fn encode_by_ref(&self, buf: &mut Vec<u8>) -> (result: Result<IsNull, Fault>)
        ensures
            appended(encoded_instant(self@), old(buf)@, final(buf)@, result),
    {
        self.naive_utc().encode_by_ref(buf)
    }

    /// Reads a date and time from an inbound payload and labels it as UTC.
    pub fn decode(value: &[u8]) -> (made: Result<DateTimeUtc, Fault>)
        ensures
            made_utc_at(made, decoded_instant(value@)),
            value@.len() != 8 ==> made == Err::<DateTimeUtc, Fault>(Fault::TruncatedPayload),
    {
        match NaiveDateTime::decode(value) {
            Ok(naive) => Ok(DateTimeUtc::from_naive_utc(naive)),
            Err(fault) => Err(fault),
        }
    }
}

/// A date and time in a zone: the date and time in UTC and the offset of the
/// zone at that instant. Its view is its instant.
#[derive(Clone, Copy, Debug, PartialEq, Eq, Structural)]
pub struct DateTimeLocal {
    naive: NaiveDateTime,
    offset: UtcOffset,
}

impl View for DateTimeLocal {
    type V = int;

    closed spec fn view(&self) -> int {
        self.naive@
    }
}

/// Whether `made` is what a decoder of values in the zone with `offset` was
/// to make: a value at the expected instant with that offset, or the expected
/// fault.
pub open spec fn made_local_at(
    made: Result<DateTimeLocal, Fault>,
    offset: UtcOffset,
    expected: Result<int, Fault>,
) -> bool {
    match expected {
        Ok(instant) => made matches Ok(value) && value@ == instant && value.spec_offset()
            == offset,
        Err(fault) => made == Err::<DateTimeLocal, Fault>(fault),
    }
}

impl DateTimeLocal {
    /// The invariant of the type: the date and time and the offset are
    /// well-formed.
    #[verifier::type_invariant]
    pub closed spec fn wf(self) -> bool {
        self.naive.wf() && self.offset.wf()
    }

    /// The date and time in UTC, without the zone.
    pub closed spec fn spec_naive_utc(&self) -> NaiveDateTime {
        self.naive
    }

    /// The offset of the zone at the instant of the value.
    pub closed spec fn spec_offset(&self) -> UtcOffset {
        self.offset
    }

    /// What the clock in the zone shows, as the instant at which a clock in
    /// UTC shows the same: the instant of the value moved by the offset.
    pub open spec fn wall_clock(self) -> int {
        self@ + self.spec_offset()@ * NANOS_PER_SEC
    }

    /// A well-formed value has a well-formed date and time in UTC, at its own
    /// instant, and a well-formed offset; the two identify it.
    pub proof fn lemma_parts(self, other: DateTimeLocal)
        requires
            self.wf(),
            other.wf(),
        ensures
            self.spec_naive_utc().wf(),
            self.spec_naive_utc()@ == self@,
            self.spec_offset().wf(),
            self@ == other@ && self.spec_offset() == other.spec_offset() ==> self == other,
    {
        self.naive.lemma_instant_identifies(other.naive);
    }

    /// Puts a date and time in UTC into the zone that has `offset` at that
    /// instant.
    pub fn from_naive_utc_and_offset(naive: NaiveDateTime, offset: UtcOffset) -> (made:
        DateTimeLocal)
        ensures
            made.spec_naive_utc() == naive,
            made.spec_offset() == offset,
            made@ == naive@,
    {
        proof {
            use_type_invariant(&naive);
            use_type_invariant(&offset);
        }
        DateTimeLocal { naive, offset }
    }

    /// The date and time in UTC, without the zone.
    #[verifier::when_used_as_spec(spec_naive_utc)]
    pub fn naive_utc(&self) -> (naive: NaiveDateTime)
        ensures
            naive == self.spec_naive_utc(),
            naive@ == self@,
    {
        self.naive
    }

    /// The offset of the zone at the instant of the value.
    #[verifier::when_used_as_spec(spec_offset)]
    pub fn offset(&self) -> (offset: UtcOffset)
        ensures
            offset == self.spec_offset(),
    {
        self.offset
    }

    /// The date and time that the clock in the zone shows, or `None` where it
    /// cannot be held.
    pub fn naive_local(&self) -> (local: Option<NaiveDateTime>)
        ensures
            local is Some <==> representable(self.wall_clock()),
            local matches Some(shown) ==> shown@ == self.wall_clock(),
    {
        let day: i64 = self.naive.day_number() as i64;
        let secs: i64 = self.naive.seconds_from_midnight() as i64 + self.offset.local_minus_utc() as i64;
        let nanos: u32 = self.naive.nanosecond();
        proof {
            lemma_instant_from_parts(self.naive@);
        }
        let (day, secs): (i64, i64) = if secs < 0 {
            (day - 1, secs + 86_400)
        } else if secs >= 86_400 {
            (day + 1, secs - 86_400)
        } else {
            (day, secs)
        };
        assert(instant_at(day as int, secs as int, nanos as int) == self.wall_clock());
        if day < i32::MIN as i64 || day > i32::MAX as i64 {
            None
        } else {
            NaiveDateTime::from_day_time(day as i32, secs as u32, nanos)
        }
    }

    /// The wire type of a date and time in the local zone.
    pub fn type_info() -> (info: TypeInfo)
        ensures
            info == wire_type(HostKind::DateTimeLocal),
    {
        resolve(HostKind::DateTimeLocal)
    }

    /// Appends the outbound bytes of the value to `buf`: those of its date
    /// and time in UTC. The offset is not written.
    pub fn encode_by_ref(&self, buf: &mut Vec<u8>) -> (result: Result<IsNull, Fault>)
        ensures
            appended(encoded_instant(self@), old(buf)@, final(buf)@, result),
    {
        self.naive_utc().encode_by_ref(buf)
    }

    /// Reads a date and time in UTC from an inbound payload and puts it into
    /// the zone that has `offset` at that instant.
    pub fn decode(value: &[u8], offset: UtcOffset) -> (made: Result<DateTimeLocal, Fault>)
        ensures
            made_local_at(made, offset, decoded_instant(value@)),
            value@.len() != 8 ==> made == Err::<DateTimeLocal, Fault>(Fault::TruncatedPayload),
    {
        match DateTimeUtc::decode(value) {
            Ok(utc) => Ok(DateTimeLocal::from_naive_utc_and_offset(utc.naive_utc(), offset)),
            Err(fault) => Err(fault),
        }
    }
}

/// One payload decoded as UTC and as local time gives the same instant or the
/// same fault, and the clock in the zone is ahead of the clock in UTC by the
/// offset of the zone, and by nothing else.
pub proof fn lemma_local_differs_from_utc_by_offset(
    payload: Seq<u8>,
    offset: UtcOffset,
    utc: Result<DateTimeUtc, Fault>,
    local: Result<DateTimeLocal, Fault>,
)
    requires
        made_utc_at(utc, decoded_instant(payload)),
        made_local_at(local, offset, decoded_instant(payload)),
    ensures
        utc is Ok <==> local is Ok,
        utc matches Err(fault) ==> local == Err::<DateTimeLocal, Fault>(fault),
        utc matches Ok(in_utc) ==> (local matches Ok(in_zone) && in_zone@ == in_utc@
            && in_zone.spec_offset() == offset && in_zone.wall_clock() - in_utc@ == offset@
            * NANOS_PER_SEC),
{
}

} // verus!
