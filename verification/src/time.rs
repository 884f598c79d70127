//! Time stamps: seconds and milliseconds since the Unix epoch, and the CCSDS
//! day segmented time code in its short form of seven bytes.
use crate::spacepackets::{
    u16_from_be, u16_to_be, u32_from_be, u32_to_be, ByteConversionError, SizeMissmatch,
};
use crate::verification::TimestampError;
use std::time::{Duration, SystemTime, SystemTimeError};
use vstd::prelude::*;

verus! {

/// Days from the CCSDS epoch, 1958-01-01, to the Unix epoch.
pub const DAYS_CCSDS_TO_UNIX: i64 = 4383;

/// Seconds of a day.
pub const SECONDS_PER_DAY: i64 = 86400;

/// The first byte of the short day segmented time code: 16 bits of days, no
/// fraction of a millisecond.
pub const P_FIELD_CDS_SHORT: u8 = 0x40;

/// A point in time: seconds since the Unix epoch and milliseconds of the second.
#[derive(Debug, Clone, Copy, PartialEq, Eq, Structural)]
pub struct UnixTimestamp {
    pub unix_seconds: i64,
    pub subsecond_millis: u16,
}

impl UnixTimestamp {
    /// The milliseconds since the Unix epoch.
    pub open spec fn millis(self) -> int {
        self.unix_seconds * 1000 + self.subsecond_millis
    }

    /// The milliseconds of the second are below 1000.
    pub open spec fn wf(self) -> bool {
        self.subsecond_millis < 1000
    }

    /// `None` where `subsecond_millis` is 1000 or more.
    pub fn new(unix_seconds: i64, subsecond_millis: u16) -> (r: Option<Self>)
        ensures
            r == (if subsecond_millis < 1000 {
                Some(UnixTimestamp { unix_seconds, subsecond_millis })
            } else {
                None
            }),
    {
        if subsecond_millis >= 1000 {
            return None;
        }
        Some(UnixTimestamp { unix_seconds, subsecond_millis })
    }

    pub fn new_only_seconds(unix_seconds: i64) -> (r: Self)
        ensures
            r == (UnixTimestamp { unix_seconds, subsecond_millis: 0 }),
    {
        UnixTimestamp { unix_seconds, subsecond_millis: 0 }
    }

    /// Whether `self` is not later than `other`.
    pub fn not_after(&self, other: &UnixTimestamp) -> (r: bool)
        requires
            self.wf(),
            other.wf(),
        ensures
            r == (self.millis() <= other.millis()),
    {
        self.unix_seconds < other.unix_seconds || (self.unix_seconds == other.unix_seconds
            && self.subsecond_millis <= other.subsecond_millis)
    }

    /// Whether `self` is later than `other` by more than `margin_millis` milliseconds.
    pub fn later_than_by(&self, other: &UnixTimestamp, margin_millis: u64) -> (r: bool)
        requires
            self.wf(),
            other.wf(),
        ensures
            r == (self.millis() > other.millis() + margin_millis),
    {
        let a: i128 = self.unix_seconds as i128 * 1000 + self.subsecond_millis as i128;
        let b: i128 = other.unix_seconds as i128 * 1000 + other.subsecond_millis as i128;
        a > b + margin_millis as i128
    }
}

#[verifier::external_type_specification]
#[verifier::external_body]
pub struct ExSystemTime(SystemTime);

#[verifier::external_type_specification]
#[verifier::external_body]
pub struct ExSystemTimeError(SystemTimeError);

/// Wrapper of `std::time::SystemTime::now`: the time that the system clock shows.
#[verifier::external_body]
pub(crate) fn system_time_now() -> (r: SystemTime) {
    SystemTime::now()
}

/// Wrapper of `std::time::SystemTime::duration_since` for the Unix epoch: how
/// long after the epoch the time is, or an error for a time before it.
#[verifier::external_body]
pub(crate) fn duration_since_epoch(t: SystemTime) -> (r: Result<Duration, SystemTimeError>) {
    t.duration_since(std::time::UNIX_EPOCH)
}

/// Wrapper of `std::time::Duration::as_secs`: the whole seconds of the duration.
#[verifier::external_body]
pub(crate) fn duration_as_secs(d: &Duration) -> (r: u64) {
    d.as_secs()
}

/// Wrapper of `std::time::Duration::subsec_millis`: the fraction of a second
/// of the duration in whole milliseconds, which is below 1000.
#[verifier::external_body]
pub(crate) fn duration_subsec_millis(d: &Duration) -> (r: u32)
    ensures
        r < 1000,
{
    d.subsec_millis()
}

/// Why the current time could not be had.
#[derive(Debug)]
pub enum StdTimestampError {
    /// The system clock shows a time before the Unix epoch.
    SystemTimeError(SystemTimeError),
    /// The time does not fit the time code.
    TimestampError(TimestampError),
}

/// The Unix time that lies `secs` seconds and `millis` milliseconds after the
/// epoch. Seconds that a signed number of 64 bits cannot say are refused as
/// an invalid time code.
pub open spec fn unix_after_epoch_spec(secs: u64, millis: u32) -> Result<UnixTimestamp, TimestampError> {
    if secs > i64::MAX as u64 {
        Err(TimestampError::InvalidTimeCode(0))
    } else {
        Ok(UnixTimestamp { unix_seconds: secs as i64, subsecond_millis: millis as u16 })
    }
}

/// The Unix time that lies `secs` seconds and `millis` milliseconds after the
/// epoch, see [`unix_after_epoch_spec`].
pub fn unix_after_epoch(secs: u64, millis: u32) -> (r: Result<UnixTimestamp, TimestampError>)
    requires
        millis < 1000,
    ensures
        r == unix_after_epoch_spec(secs, millis),
        r matches Ok(t) ==> t.wf() && t.unix_seconds >= 0,
{
    if secs > i64::MAX as u64 {
        return Err(TimestampError::InvalidTimeCode(0));
    }
    Ok(UnixTimestamp { unix_seconds: secs as i64, subsecond_millis: millis as u16 })
}

/// The time that the system clock shows, as [`unix_after_epoch`] gives it for
/// the seconds and milliseconds that the clock is after the epoch. Whatever
/// the clock shows, the result does not lie before the epoch and has less
/// than 1000 milliseconds in the second, and the only time code error is the
/// one for seconds that are out of range.
pub fn unix_now() -> (r: Result<UnixTimestamp, StdTimestampError>)
    ensures
        r matches Ok(t) ==> t.wf() && t.unix_seconds >= 0 && exists|secs: u64, millis: u32|
            millis < 1000 && unix_after_epoch_spec(secs, millis) == Ok::<UnixTimestamp, TimestampError>(t),
        r matches Err(StdTimestampError::TimestampError(e)) ==> e == TimestampError::InvalidTimeCode(0),
{
    match duration_since_epoch(system_time_now()) {
        Ok(d) => {
            let secs = duration_as_secs(&d);
            let millis = duration_subsec_millis(&d);
            match unix_after_epoch(secs, millis) {
                Ok(t) => Ok(t),
                Err(e) => Err(StdTimestampError::TimestampError(e)),
            }
        },
        Err(e) => Err(StdTimestampError::SystemTimeError(e)),
    }
}

/// A time in the short day segmented time code: days since 1958-01-01 and
/// milliseconds of the day.
#[derive(Debug, Clone, Copy, PartialEq, Eq, Structural)]
pub struct TimeProvider {
    pub ccsds_days: u16,
    pub ms_of_day: u32,
}

impl TimeProvider {
    /// The seven bytes of the time code.
    pub open spec fn bytes(self) -> Seq<u8> {
        seq![P_FIELD_CDS_SHORT] + crate::spacepackets::be_bytes_u16(self.ccsds_days)
            + crate::spacepackets::be_bytes_u32(self.ms_of_day)
    }

    /// The time code of a Unix time, where there is one: the days have to fit 16 bits.
    pub open spec fn of_unix(t: UnixTimestamp) -> Option<TimeProvider> {
        let days = t.unix_seconds as int / 86400 + DAYS_CCSDS_TO_UNIX as int;
        if t.unix_seconds >= 0 && days <= u16::MAX && t.subsecond_millis < 1000 {
            Some(
                TimeProvider {
                    ccsds_days: days as u16,
                    ms_of_day: ((t.unix_seconds as int % 86400) * 1000
                        + t.subsecond_millis) as u32,
                },
            )
        } else {
            None
        }
    }

    pub fn new_with_u16_days(ccsds_days: u16, ms_of_day: u32) -> (r: Self)
        ensures
            r == (TimeProvider { ccsds_days, ms_of_day }),
    {
        TimeProvider { ccsds_days, ms_of_day }
    }

    /// The time code of a Unix time that is not before the epoch and whose days
    /// fit 16 bits.
    pub fn from_unix_stamp(t: &UnixTimestamp) -> (r: Result<Self, TimestampError>)
        ensures
            match r {
                Ok(p) => TimeProvider::of_unix(*t) == Some(p),
                Err(e) => TimeProvider::of_unix(*t).is_none() && e == TimestampError::InvalidTimeCode(
                    P_FIELD_CDS_SHORT,
                ),
            },
    {
        if t.unix_seconds < 0 || t.subsecond_millis >= 1000 {
            return Err(TimestampError::InvalidTimeCode(P_FIELD_CDS_SHORT));
        }
        let days = t.unix_seconds / SECONDS_PER_DAY + DAYS_CCSDS_TO_UNIX;
        if days > u16::MAX as i64 {
            return Err(TimestampError::InvalidTimeCode(P_FIELD_CDS_SHORT));
        }
        let secs_of_day = t.unix_seconds % SECONDS_PER_DAY;
        Ok(
            TimeProvider {
                ccsds_days: days as u16,
                ms_of_day: (secs_of_day * 1000 + t.subsecond_millis as i64) as u32,
            },
        )
    }

    /// What reading a time code from the front of `buf` ends in.
    pub open spec fn parse(buf: Seq<u8>) -> Result<TimeProvider, TimestampError> {
        if buf.len() < 7 {
            Err(
                TimestampError::ByteConversion(
                    ByteConversionError::FromSliceTooSmall(
                        SizeMissmatch { found: buf.len() as usize, expected: 7 },
                    ),
                ),
            )
        } else if buf[0] != P_FIELD_CDS_SHORT {
            Err(TimestampError::InvalidTimeCode(buf[0]))
        } else {
            Ok(
                TimeProvider {
                    ccsds_days: crate::spacepackets::u16_of_be(buf.subrange(1, 3)),
                    ms_of_day: crate::spacepackets::u32_of_be(buf.subrange(3, 7)),
                },
            )
        }
    }

    /// Reads a time code from the front of `buf`.
    pub fn from_bytes(buf: &[u8]) -> (r: Result<Self, TimestampError>)
        ensures
            r == TimeProvider::parse(buf@),
    {
        if buf.len() < 7 {
            return Err(
                TimestampError::ByteConversion(
                    ByteConversionError::FromSliceTooSmall(
                        SizeMissmatch { found: buf.len(), expected: 7 },
                    ),
                ),
            );
        }
        if buf[0] != P_FIELD_CDS_SHORT {
            return Err(TimestampError::InvalidTimeCode(buf[0]));
        }
        Ok(TimeProvider { ccsds_days: u16_from_be(buf, 1), ms_of_day: u32_from_be(buf, 3) })
    }

    /// The Unix time that the time code stands for.
    pub open spec fn unix_spec(self) -> UnixTimestamp {
        UnixTimestamp {
            unix_seconds: ((self.ccsds_days as int - DAYS_CCSDS_TO_UNIX as int) * 86400
                + self.ms_of_day as int / 1000) as i64,
            subsecond_millis: (self.ms_of_day % 1000) as u16,
        }
    }

    /// The Unix time that the time code stands for.
    pub fn unix_stamp(&self) -> (r: UnixTimestamp)
        ensures
            r == self.unix_spec(),
            r.wf(),
    {
        let days: i64 = self.ccsds_days as i64 - DAYS_CCSDS_TO_UNIX;
        let secs: i64 = days * SECONDS_PER_DAY + (self.ms_of_day / 1000) as i64;
        UnixTimestamp { unix_seconds: secs, subsecond_millis: (self.ms_of_day % 1000) as u16 }
    }

    /// The time code stands for a time that does not lie before the Unix
    /// epoch: every time code that is made from the system clock does.
    pub open spec fn after_epoch(self) -> bool {
        exists|t: UnixTimestamp|
            t.wf() && t.unix_seconds >= 0 && TimeProvider::of_unix(t) == Some(self)
    }

    /// The time code of `now`, see [`TimeProvider::of_unix`]; the error of
    /// the clock is handed on.
    pub fn from_clock(now: Result<UnixTimestamp, StdTimestampError>) -> (r: Result<Self, StdTimestampError>)
        ensures
            match now {
                Ok(t) => match TimeProvider::of_unix(t) {
                    Some(p) => r == Ok::<Self, StdTimestampError>(p),
                    None => r == Err::<Self, StdTimestampError>(
                        StdTimestampError::TimestampError(
                            TimestampError::InvalidTimeCode(P_FIELD_CDS_SHORT),
                        ),
                    ),
                },
                Err(e) => r == Err::<Self, StdTimestampError>(e),
            },
    {
        match now {
            Ok(t) => match TimeProvider::from_unix_stamp(&t) {
                Ok(p) => Ok(p),
                Err(e) => Err(StdTimestampError::TimestampError(e)),
            },
            Err(e) => Err(e),
        }
    }

    /// The time code of the time that the system clock shows: what
    /// [`TimeProvider::from_clock`] makes of [`unix_now`]. Whatever the clock
    /// shows, a time code that comes back stands for a time after the epoch.
    pub fn from_now_with_u16_days() -> (r: Result<Self, StdTimestampError>)
        ensures
            r matches Ok(p) ==> p.after_epoch(),
    {
        let now = unix_now();
        TimeProvider::from_clock(now)
    }

    /// Sets the time code to the time that the system clock shows, as
    /// [`TimeProvider::from_now_with_u16_days`] gives it. After an error the
    /// time code is as before.
    pub fn update_from_now(&mut self) -> (r: Result<(), StdTimestampError>)
        ensures
            r.is_ok() ==> final(self).after_epoch(),
            r.is_err() ==> *final(self) == *old(self),
    {
        match TimeProvider::from_now_with_u16_days() {
            Ok(p) => {
                *self = p;
                Ok(())
            },
            Err(e) => Err(e),
        }
    }

    /// Writes the seven bytes of the time code to the front of `buf` and returns 7.
    pub fn write_to_bytes(&self, buf: &mut [u8]) -> (r: Result<usize, TimestampError>)
        ensures
            final(buf)@.len() == old(buf)@.len(),
            match r {
                Ok(n) => n == 7 && old(buf)@.len() >= 7 && final(buf)@ == self.bytes() + old(
                    buf,
                )@.subrange(7, old(buf)@.len() as int),
                Err(e) => old(buf)@.len() < 7 && final(buf)@ == old(buf)@ && e
                    == TimestampError::ByteConversion(
                    ByteConversionError::ToSliceTooSmall(
                        SizeMissmatch { found: old(buf)@.len() as usize, expected: 7 },
                    ),
                ),
            },
    {
        if buf.len() < 7 {
            return Err(
                TimestampError::ByteConversion(
                    ByteConversionError::ToSliceTooSmall(SizeMissmatch { found: buf.len(), expected: 7 }),
                ),
            );
        }
        let days = u16_to_be(self.ccsds_days);
        let ms = u32_to_be(self.ms_of_day);
        buf[0] = P_FIELD_CDS_SHORT;
        buf[1] = days[0];
        buf[2] = days[1];
        buf[3] = ms[0];
        buf[4] = ms[1];
        buf[5] = ms[2];
        buf[6] = ms[3];
        assert(buf@ =~= self.bytes() + old(buf)@.subrange(7, old(buf)@.len() as int));
        Ok(7)
    }
}

/// Sets `time_provider` to the time of the system clock and writes it to the
/// front of `timestamp`. After an error both are as before.
pub fn update_time(time_provider: &mut TimeProvider, timestamp: &mut [u8]) -> (r: Result<
    (),
    StdTimestampError,
>)
    ensures
        final(timestamp)@.len() == old(timestamp)@.len(),
        match r {
            Ok(()) => {
                &&& old(timestamp)@.len() >= 7
                &&& final(time_provider).after_epoch()
                &&& final(timestamp)@ == final(time_provider).bytes() + old(timestamp)@.subrange(
                    7,
                    old(timestamp)@.len() as int,
                )
            },
            Err(_) => final(timestamp)@ == old(timestamp)@ && *final(time_provider) == *old(
                time_provider,
            ),
        },
        old(timestamp)@.len() < 7 ==> r == Err::<(), StdTimestampError>(
            StdTimestampError::TimestampError(
                TimestampError::ByteConversion(
                    ByteConversionError::ToSliceTooSmall(
                        SizeMissmatch { found: old(timestamp)@.len() as usize, expected: 7 },
                    ),
                ),
            ),
        ),
{
    if timestamp.len() < 7 {
        return Err(
            StdTimestampError::TimestampError(
                TimestampError::ByteConversion(
                    ByteConversionError::ToSliceTooSmall(
                        SizeMissmatch { found: timestamp.len(), expected: 7 },
                    ),
                ),
            ),
        );
    }
    time_provider.update_from_now()?;
    match time_provider.write_to_bytes(timestamp) {
        Ok(_) => Ok(()),
        Err(e) => Err(StdTimestampError::TimestampError(e)),
    }
}

/// Keeps a time stamp of seven bytes up to date.
pub struct TimeStampHelper {
    stamper: TimeProvider,
    time_stamp: [u8; 7],
}

impl TimeStampHelper {
    pub closed spec fn stamp_spec(&self) -> Seq<u8> {
        self.time_stamp@
    }

    pub closed spec fn stamper(&self) -> TimeProvider {
        self.stamper
    }

    /// A helper whose time stamp is seven zeroes.
    pub fn new() -> (r: Self)
        ensures
            r.stamp_spec() == Seq::new(7, |i: int| 0u8),
            r.stamper() == (TimeProvider { ccsds_days: 0, ms_of_day: 0 }),
    {
        let r = Self { stamper: TimeProvider::new_with_u16_days(0, 0), time_stamp: [0; 7] };
        assert(r.time_stamp@ =~= Seq::new(7, |i: int| 0u8));
        r
    }

    /// The time stamp as it was set last.
    pub fn stamp(&self) -> (r: &[u8])
        ensures
            r@ == self.stamp_spec(),
            r@.len() == 7,
    {
        &self.time_stamp
    }

    /// Sets the time stamp to the time that the system clock shows. After an
    /// error the time stamp is as before.
    pub fn update_from_now(&mut self) -> (r: Result<(), StdTimestampError>)
        ensures
            match r {
                Ok(()) => {
                    &&& final(self).stamper().after_epoch()
                    &&& final(self).stamp_spec() == final(self).stamper().bytes()
                },
                Err(_) => *final(self) == *old(self),
            },
    {
        self.stamper.update_from_now()?;
        let mut buf = [0u8; 7];
        let written = self.stamper.write_to_bytes(&mut buf);
        self.time_stamp = buf;
        assert(self.time_stamp@ =~= self.stamper.bytes());
        Ok(())
    }
}

} // verus!
