use chrono::{Datelike, Duration, NaiveDate, NaiveTime, Timelike};
use mssql_types::fault::{Fault, IsNull};
use mssql_types::naive::NaiveDateTime;
use mssql_types::ticks::ticks_to_ms;
use mssql_types::type_info::{DataType, TypeInfo};

fn chrono_of(value: &NaiveDateTime) -> chrono::NaiveDateTime {
    let date = NaiveDate::from_num_days_from_ce_opt(value.day_number()).unwrap();
    let time =
        NaiveTime::from_num_seconds_from_midnight_opt(value.seconds_from_midnight(), value.nanosecond())
            .unwrap();
    date.and_time(time)
}

fn of_chrono(value: &chrono::NaiveDateTime) -> NaiveDateTime {
    NaiveDateTime::from_day_time(
        value.date().num_days_from_ce(),
        value.time().num_seconds_from_midnight(),
        value.time().nanosecond(),
    )
    .unwrap()
}

fn inbound(days: i32, ticks: u32) -> Vec<u8> {
    let mut payload = Vec::new();
    payload.extend_from_slice(&days.to_le_bytes());
    payload.extend_from_slice(&ticks.to_le_bytes());
    payload
}

fn epoch(year: i32) -> chrono::NaiveDateTime {
    NaiveDate::from_ymd_opt(year, 1, 1).unwrap().and_hms_opt(0, 0, 0).unwrap()
}

#[test]
fn decode_zero_is_the_1900_epoch() {
    let value = NaiveDateTime::decode(&[0u8; 8]).unwrap();
    assert_eq!(value, NaiveDateTime::from_ymd_hms(1900, 1, 1, 0, 0, 0).unwrap());
    assert_eq!(value.ymd(), Some((1900, 1, 1)));
    assert_eq!(value.day_number(), 693_596);
    assert_eq!(value.seconds_from_midnight(), 0);
    assert_eq!(value.nanosecond(), 0);
    assert_eq!(chrono_of(&value), epoch(1900));
}

#[test]
fn ticks_to_ms_is_exact_at_the_boundaries() {
    assert_eq!(ticks_to_ms(3), 10);
    assert_eq!(ticks_to_ms(300), 1000);
}

#[test]
fn ticks_to_ms_rounds_to_the_nearest_millisecond() {
    assert_eq!(ticks_to_ms(0), 0);
    assert_eq!(ticks_to_ms(1), 3);
    assert_eq!(ticks_to_ms(2), 7);
    assert_eq!(ticks_to_ms(4), 13);
    assert_eq!(ticks_to_ms(5), 17);
    assert_eq!(ticks_to_ms(6), 20);
    assert_eq!(ticks_to_ms(299), 997);
    assert_eq!(ticks_to_ms(25_919_999), 86_399_997);
    assert_eq!(ticks_to_ms(25_920_000), 86_400_000);
    assert_eq!(ticks_to_ms(u32::MAX), 14_316_557_650);
}

#[test]
fn ticks_to_ms_stays_within_a_third_of_a_millisecond() {
    let mut ticks: u32 = 0;
    while ticks < 100_000 {
        let millis = ticks_to_ms(ticks);
        let error = 3 * millis - 10 * ticks as i64;
        assert!(-1 <= error && error <= 1);
        ticks += 1;
    }
    let mut ticks: u32 = u32::MAX;
    while ticks > u32::MAX - 1000 {
        let millis = ticks_to_ms(ticks);
        let error = 3 * millis - 10 * ticks as i64;
        assert!(-1 <= error && error <= 1);
        ticks -= 1;
    }
}

#[test]
fn ticks_to_ms_does_not_drift_for_whole_seconds() {
    let mut seconds: u32 = 0;
    while seconds <= 14_316_557 {
        assert_eq!(ticks_to_ms(seconds * 300), seconds as i64 * 1000);
        seconds += 9973;
    }
}

#[test]
fn decode_rejects_every_other_length() {
    let bytes = [0u8; 32];
    for len in 0..bytes.len() {
        let made = NaiveDateTime::decode(&bytes[..len]);
        if len == 8 {
            assert!(made.is_ok());
        } else {
            assert_eq!(made, Err(Fault::TruncatedPayload));
        }
    }
}

#[test]
fn decode_reads_fixed_samples() {
    let march = NaiveDateTime::decode(&[125, 141, 0, 0, 144, 178, 127, 1]).unwrap();
    assert_eq!(march, NaiveDateTime::from_ymd_hms(1999, 3, 4, 23, 17, 0).unwrap());
    let october = NaiveDateTime::decode(&[208, 173, 0, 0, 220, 168, 227, 0]).unwrap();
    assert_eq!(october, NaiveDateTime::from_ymd_hms(2021, 10, 29, 13, 48, 53).unwrap());
    let first = NaiveDateTime::decode(&[70, 46, 255, 255, 0, 0, 0, 0]).unwrap();
    assert_eq!(first, NaiveDateTime::from_ymd_hms(1753, 1, 1, 0, 0, 0).unwrap());
    let last = NaiveDateTime::decode(&[127, 36, 45, 0, 255, 129, 139, 1]).unwrap();
    assert_eq!(
        last,
        NaiveDateTime::from_ymd_hms_nano(9999, 12, 31, 23, 59, 59, 997_000_000).unwrap()
    );
}

#[test]
fn decode_reads_both_counts_least_significant_byte_first() {
    let value = NaiveDateTime::decode(&[1, 0, 0, 0, 0, 0, 0, 0]).unwrap();
    assert_eq!(value, NaiveDateTime::after_epoch(693_596, 1, 0).unwrap());
    let value = NaiveDateTime::decode(&[0, 1, 0, 0, 0, 0, 0, 0]).unwrap();
    assert_eq!(value, NaiveDateTime::after_epoch(693_596, 256, 0).unwrap());
    let value = NaiveDateTime::decode(&[0x78, 0x56, 0x34, 0x12, 0, 0, 0, 0]).unwrap();
    assert_eq!(value, NaiveDateTime::after_epoch(693_596, 0x1234_5678, 0).unwrap());
    let value = NaiveDateTime::decode(&[0, 0, 0, 128, 0, 0, 0, 0]).unwrap();
    assert_eq!(value, NaiveDateTime::after_epoch(693_596, i32::MIN, 0).unwrap());
    let value = NaiveDateTime::decode(&[0, 0, 0, 0, 1, 0, 0, 0]).unwrap();
    assert_eq!(value, NaiveDateTime::after_epoch(693_596, 0, 1).unwrap());
    let value = NaiveDateTime::decode(&[0, 0, 0, 0, 0, 0, 1, 0]).unwrap();
    assert_eq!(value, NaiveDateTime::after_epoch(693_596, 0, 65_536).unwrap());
    let value = NaiveDateTime::decode(&[0, 0, 0, 0, 0x78, 0x56, 0x34, 0x12]).unwrap();
    assert_eq!(value, NaiveDateTime::after_epoch(693_596, 0, 0x1234_5678).unwrap());
    let value = NaiveDateTime::decode(&[0, 0, 0, 0, 0, 0, 0, 128]).unwrap();
    assert_eq!(value, NaiveDateTime::after_epoch(693_596, 0, 0x8000_0000).unwrap());
    let value = NaiveDateTime::decode(&[0, 0, 0, 0, 255, 255, 255, 255]).unwrap();
    assert_eq!(value, NaiveDateTime::after_epoch(693_596, 0, u32::MAX).unwrap());
}

#[test]
fn decode_reads_days_before_the_epoch() {
    let value = NaiveDateTime::decode(&[255, 255, 255, 255, 0, 0, 0, 0]).unwrap();
    assert_eq!(value, NaiveDateTime::from_ymd_hms(1899, 12, 31, 0, 0, 0).unwrap());
}

#[test]
fn decode_carries_ticks_beyond_a_day() {
    let value = NaiveDateTime::decode(&inbound(0, 25_920_000)).unwrap();
    assert_eq!(value, NaiveDateTime::from_ymd_hms(1900, 1, 2, 0, 0, 0).unwrap());
    let value = NaiveDateTime::decode(&inbound(10, u32::MAX)).unwrap();
    assert_eq!(chrono_of(&value), epoch(1900) + Duration::days(10) + Duration::milliseconds(14_316_557_650));
}

#[test]
fn decode_agrees_with_calendar_arithmetic() {
    let days = [0, 1, -1, 59, 60, 36_524, 36_525, 44_496, -53_690, 2_958_463, 1_000_000, -700_000];
    let ticks = [0u32, 1, 2, 3, 299, 300, 301, 25_919_999, 25_920_000, 1_000_000_000];
    for d in days {
        for t in ticks {
            let value = NaiveDateTime::decode(&inbound(d, t)).unwrap();
            let expected =
                epoch(1900) + Duration::days(d as i64) + Duration::milliseconds(ticks_to_ms(t));
            assert_eq!(chrono_of(&value), expected);
        }
    }
}

#[test]
fn decode_reports_a_day_count_that_cannot_be_held() {
    assert_eq!(NaiveDateTime::decode(&inbound(i32::MAX, 0)), Err(Fault::RangeOverflow));
    assert_eq!(NaiveDateTime::decode(&inbound(i32::MAX - 693_596, 0)).map(|v| v.day_number()), Ok(i32::MAX));
    assert_eq!(NaiveDateTime::decode(&inbound(i32::MAX - 693_596, 25_920_000)), Err(Fault::RangeOverflow));
    assert_eq!(NaiveDateTime::decode(&inbound(i32::MAX - 693_595, 0)), Err(Fault::RangeOverflow));
    assert_eq!(NaiveDateTime::decode(&inbound(i32::MIN, 0)).map(|v| v.day_number()), Ok(i32::MIN + 693_596));
}

#[test]
fn after_epoch_adds_days_and_ticks() {
    let value = NaiveDateTime::after_epoch(693_596, 36_524, 300).unwrap();
    assert_eq!(value, NaiveDateTime::from_ymd_hms(2000, 1, 1, 0, 0, 1).unwrap());
    assert_eq!(NaiveDateTime::after_epoch(i32::MAX, 1, 0), Err(Fault::RangeOverflow));
    assert_eq!(NaiveDateTime::after_epoch(i32::MIN, -1, 0), Err(Fault::RangeOverflow));
    assert_eq!(NaiveDateTime::after_epoch(i32::MIN, 0, 3).map(|v| v.nanosecond()), Ok(10_000_000));
}

#[test]
fn encode_writes_fixed_samples() {
    let mut buf = Vec::new();
    let value = NaiveDateTime::from_ymd_hms(2000, 1, 1, 0, 0, 0).unwrap();
    assert_eq!(value.encode_by_ref(&mut buf), Ok(IsNull::No));
    assert_eq!(buf, vec![0u8; 8]);

    let mut buf = Vec::new();
    let value = NaiveDateTime::from_ymd_hms(2000, 1, 1, 0, 0, 1).unwrap();
    assert_eq!(value.encode_by_ref(&mut buf), Ok(IsNull::No));
    assert_eq!(buf, vec![64, 66, 15, 0, 0, 0, 0, 0]);

    let mut buf = Vec::new();
    let value = NaiveDateTime::from_ymd_hms(1999, 12, 31, 23, 59, 59).unwrap();
    assert_eq!(value.encode_by_ref(&mut buf), Ok(IsNull::No));
    assert_eq!(buf, vec![192, 189, 240, 255, 255, 255, 255, 255]);

    let mut buf = Vec::new();
    let value = NaiveDateTime::from_ymd_hms(1999, 3, 4, 23, 17, 0).unwrap();
    assert_eq!(value.encode_by_ref(&mut buf), Ok(IsNull::No));
    assert_eq!(buf, vec![0, 19, 37, 50, 68, 232, 255, 255]);

    let mut buf = Vec::new();
    let value = NaiveDateTime::from_ymd_hms(2021, 10, 29, 13, 48, 53).unwrap();
    assert_eq!(value.encode_by_ref(&mut buf), Ok(IsNull::No));
    assert_eq!(buf, vec![64, 219, 58, 219, 124, 114, 2, 0]);

    let mut buf = Vec::new();
    let value = NaiveDateTime::from_ymd_hms_nano(9999, 12, 31, 23, 59, 59, 997_000_000).unwrap();
    assert_eq!(value.encode_by_ref(&mut buf), Ok(IsNull::No));
    assert_eq!(buf, vec![72, 116, 59, 145, 11, 231, 128, 3]);
}

#[test]
fn encode_appends_after_what_the_buffer_holds() {
    let mut buf = vec![1u8, 2, 3];
    let value = NaiveDateTime::from_ymd_hms(2000, 1, 1, 0, 0, 1).unwrap();
    assert_eq!(value.encode_by_ref(&mut buf), Ok(IsNull::No));
    assert_eq!(buf, vec![1, 2, 3, 64, 66, 15, 0, 0, 0, 0, 0]);
}

#[test]
fn encode_drops_what_is_less_than_a_microsecond() {
    let mut buf = Vec::new();
    let value = NaiveDateTime::from_ymd_hms_nano(2000, 1, 1, 0, 0, 0, 1_999).unwrap();
    assert_eq!(value.encode_by_ref(&mut buf), Ok(IsNull::No));
    assert_eq!(buf, 1i64.to_le_bytes().to_vec());

    let mut buf = Vec::new();
    let value = NaiveDateTime::from_ymd_hms_nano(1999, 12, 31, 23, 59, 59, 999_999_500).unwrap();
    assert_eq!(value.encode_by_ref(&mut buf), Ok(IsNull::No));
    assert_eq!(buf, 0i64.to_le_bytes().to_vec());

    let mut buf = Vec::new();
    let value = NaiveDateTime::from_ymd_hms_nano(1999, 12, 31, 23, 59, 59, 999_998_500).unwrap();
    assert_eq!(value.encode_by_ref(&mut buf), Ok(IsNull::No));
    assert_eq!(buf, (-1i64).to_le_bytes().to_vec());
}

#[test]
fn encode_agrees_with_the_elapsed_time_of_the_calendar() {
    let samples = [
        NaiveDate::from_ymd_opt(2000, 1, 1).unwrap().and_hms_nano_opt(0, 0, 0, 0).unwrap(),
        NaiveDate::from_ymd_opt(1969, 7, 20).unwrap().and_hms_nano_opt(20, 17, 40, 123_456_789).unwrap(),
        NaiveDate::from_ymd_opt(2038, 1, 19).unwrap().and_hms_nano_opt(3, 14, 7, 999_999_999).unwrap(),
        NaiveDate::from_ymd_opt(1, 1, 1).unwrap().and_hms_nano_opt(0, 0, 0, 1).unwrap(),
        NaiveDate::from_ymd_opt(-4000, 2, 29).unwrap().and_hms_nano_opt(12, 0, 0, 999).unwrap(),
        NaiveDate::from_ymd_opt(2016, 12, 31).unwrap().and_hms_nano_opt(23, 59, 59, 1_500_000_000).unwrap(),
        NaiveDate::from_ymd_opt(1998, 12, 31).unwrap().and_hms_nano_opt(23, 59, 59, 1_000_000_001).unwrap(),
        NaiveDate::MIN.and_hms_opt(0, 0, 0).unwrap(),
        NaiveDate::MAX.and_hms_nano_opt(23, 59, 59, 999_999_999).unwrap(),
    ];
    for sample in samples {
        let micros = (sample - epoch(2000)).num_microseconds().unwrap();
        let mut buf = Vec::new();
        assert_eq!(of_chrono(&sample).encode_by_ref(&mut buf), Ok(IsNull::No));
        assert_eq!(buf, micros.to_le_bytes().to_vec());
    }
}

#[test]
fn encode_reports_a_count_that_does_not_fit() {
    let mut buf = vec![9u8];
    let late = NaiveDateTime::from_day_time(i32::MAX, 0, 0).unwrap();
    assert_eq!(late.encode_by_ref(&mut buf), Err(Fault::RangeOverflow));
    assert_eq!(buf, vec![9u8]);
    let early = NaiveDateTime::from_day_time(i32::MIN, 0, 0).unwrap();
    assert_eq!(early.encode_by_ref(&mut buf), Err(Fault::RangeOverflow));
    assert_eq!(buf, vec![9u8]);
}

#[test]
fn micros_since_counts_toward_zero_and_checks_the_range() {
    let value = NaiveDateTime::from_day_time(10, 1, 1_500).unwrap();
    assert_eq!(value.micros_since(10), Some(1_000_001));
    assert_eq!(value.micros_since(11), Some(-86_398_999_998));
    assert_eq!(value.micros_since(9), Some(86_401_000_001));
    // i64::MAX microseconds are 106_751_991 days, 14_454 seconds and 775_807 microseconds.
    let last = NaiveDateTime::from_day_time(106_751_991, 14_454, 775_807_999).unwrap();
    assert_eq!(last.micros_since(0), Some(i64::MAX));
    let beyond = NaiveDateTime::from_day_time(106_751_991, 14_454, 775_808_000).unwrap();
    assert_eq!(beyond.micros_since(0), None);
    let first = NaiveDateTime::from_day_time(-106_751_992, 86_400 - 14_455, 224_192_000).unwrap();
    assert_eq!(first.micros_since(0), Some(i64::MIN));
    let before = NaiveDateTime::from_day_time(-106_751_992, 86_400 - 14_455, 224_190_999).unwrap();
    assert_eq!(before.micros_since(0), None);
}

#[test]
fn encode_nullable_writes_nothing_for_an_absent_value() {
    let mut buf = vec![7u8, 8];
    assert_eq!(NaiveDateTime::encode_nullable(None, &mut buf), Ok(IsNull::Yes));
    assert_eq!(buf, vec![7u8, 8]);
}

#[test]
fn encode_nullable_encodes_a_present_value() {
    let value = NaiveDateTime::from_ymd_hms(2000, 1, 1, 0, 0, 1).unwrap();
    let mut buf = Vec::new();
    assert_eq!(NaiveDateTime::encode_nullable(Some(&value), &mut buf), Ok(IsNull::No));
    assert_eq!(buf, vec![64, 66, 15, 0, 0, 0, 0, 0]);
    let late = NaiveDateTime::from_day_time(i32::MAX, 0, 0).unwrap();
    assert_eq!(NaiveDateTime::encode_nullable(Some(&late), &mut buf), Err(Fault::RangeOverflow));
    assert_eq!(buf.len(), 8);
}

#[test]
fn the_two_formats_do_not_round_trip() {
    let payload = [0u8; 8];
    let value = NaiveDateTime::decode(&payload).unwrap();
    let mut buf = Vec::new();
    assert_eq!(value.encode_by_ref(&mut buf), Ok(IsNull::No));
    assert_ne!(buf, payload.to_vec());
    assert_eq!(buf, (-36_524i64 * 86_400_000_000).to_le_bytes().to_vec());
    assert_ne!(NaiveDateTime::decode(&buf), Ok(value));
}

#[test]
fn type_info_is_an_eight_byte_datetime() {
    assert_eq!(NaiveDateTime::type_info(), TypeInfo::new(DataType::DateTime, 8));
}

#[test]
fn from_ymd_hms_rejects_what_is_no_date_or_time() {
    assert!(NaiveDateTime::from_ymd_hms(2015, 3, 14, 0, 0, 0).is_some());
    assert!(NaiveDateTime::from_ymd_hms(2015, 0, 14, 0, 0, 0).is_none());
    assert!(NaiveDateTime::from_ymd_hms(2015, 2, 29, 0, 0, 0).is_none());
    assert!(NaiveDateTime::from_ymd_hms(2016, 2, 29, 0, 0, 0).is_some());
    assert!(NaiveDateTime::from_ymd_hms(400_000, 1, 1, 0, 0, 0).is_none());
    assert!(NaiveDateTime::from_ymd_hms(2015, 3, 14, 24, 0, 0).is_none());
    assert!(NaiveDateTime::from_ymd_hms(2015, 3, 14, 23, 60, 0).is_none());
    assert!(NaiveDateTime::from_ymd_hms(2015, 3, 14, 23, 59, 60).is_none());
    assert!(NaiveDateTime::from_ymd_hms_nano(2015, 3, 14, 23, 59, 59, 1_999_999_999).is_some());
    assert!(NaiveDateTime::from_ymd_hms_nano(2015, 3, 14, 23, 59, 58, 1_000_000_000).is_none());
    assert!(NaiveDateTime::from_ymd_hms_nano(2015, 3, 14, 23, 59, 59, 2_000_000_000).is_none());
}

#[test]
fn from_ymd_hms_counts_days_as_the_calendar_does() {
    let value = NaiveDateTime::from_ymd_hms(1970, 1, 1, 0, 0, 0).unwrap();
    assert_eq!(value.day_number(), 719_163);
    let value = NaiveDateTime::from_ymd_hms(2000, 1, 1, 12, 34, 56).unwrap();
    assert_eq!(value.day_number(), 730_120);
    assert_eq!(value.seconds_from_midnight(), 12 * 3600 + 34 * 60 + 56);
    assert_eq!(value.nanosecond(), 0);
    let value = NaiveDateTime::from_ymd_hms(1, 1, 1, 0, 0, 0).unwrap();
    assert_eq!(value.day_number(), 1);
}

#[test]
fn ymd_reads_the_date_of_a_day_number() {
    assert_eq!(NaiveDateTime::from_day_time(719_163, 0, 0).unwrap().ymd(), Some((1970, 1, 1)));
    assert_eq!(NaiveDateTime::from_day_time(730_000, 0, 0).unwrap().ymd(), Some((1999, 9, 3)));
    assert_eq!(NaiveDateTime::from_day_time(0, 0, 0).unwrap().ymd(), Some((0, 12, 31)));
    assert_eq!(NaiveDateTime::from_day_time(-1, 86_399, 0).unwrap().ymd(), Some((0, 12, 30)));
    assert_eq!(NaiveDateTime::from_day_time(100_000_000, 0, 0).unwrap().ymd(), None);
}

#[test]
fn from_day_time_holds_a_leap_second_as_its_instant() {
    let leap = NaiveDateTime::from_day_time(10, 59, 1_500_000_000).unwrap();
    assert_eq!(leap, NaiveDateTime::from_day_time(10, 60, 500_000_000).unwrap());
    let midnight = NaiveDateTime::from_day_time(10, 86_399, 1_000_000_000).unwrap();
    assert_eq!(midnight, NaiveDateTime::from_day_time(11, 0, 0).unwrap());
    assert_eq!(NaiveDateTime::from_day_time(i32::MAX, 86_399, 1_000_000_000), None);
    assert_eq!(NaiveDateTime::from_day_time(10, 58, 1_000_000_000), None);
    assert_eq!(NaiveDateTime::from_day_time(10, 86_400, 0), None);
    assert_eq!(NaiveDateTime::from_day_time(10, 59, 2_000_000_000), None);
}

#[test]
fn year_of_the_calendar_is_what_chrono_reads() {
    let value = NaiveDateTime::from_ymd_hms(1999, 3, 4, 23, 17, 0).unwrap();
    let there = chrono_of(&value);
    assert_eq!((there.year(), there.month(), there.day()), (1999, 3, 4));
    assert_eq!((there.hour(), there.minute(), there.second()), (23, 17, 0));
}
