use hlshell::rtc::bcd_to_bin;
use hlshell::rtc::decode;
use hlshell::rtc::is_updating;
use hlshell::rtc::DateTime;
use hlshell::rtc::Rtc;
use hlshell::rtc::RTC_ADDR;
use hlshell::rtc::RTC_DATA;
use hlshell::rtc::STATUS_A;
use hlshell::rtc::STATUS_B;

fn sample() -> DateTime {
    DateTime { second: 5, minute: 7, hour: 23, day: 1, month: 2, year: 25 }
}

#[test]
fn bcd_to_bin_known_values() {
    assert_eq!(bcd_to_bin(0x00), 0);
    assert_eq!(bcd_to_bin(0x09), 9);
    assert_eq!(bcd_to_bin(0x10), 10);
    assert_eq!(bcd_to_bin(0x59), 59);
    assert_eq!(bcd_to_bin(0x99), 99);
}

#[test]
fn bcd_to_bin_takes_any_byte() {
    assert_eq!(bcd_to_bin(0x0F), 15);
    assert_eq!(bcd_to_bin(0xA0), 100);
    assert_eq!(bcd_to_bin(0xFF), 165);
}

#[test]
fn bcd_round_trip_for_every_digit_pair() {
    for tens in 0u8..=9 {
        for units in 0u8..=9 {
            let byte = (tens << 4) | units;
            assert_eq!(bcd_to_bin(byte), tens * 10 + units);
        }
    }
}

#[test]
fn update_bit_is_the_top_bit_of_status_a() {
    assert!(is_updating(0x80));
    assert!(is_updating(0xA6));
    assert!(is_updating(0xFF));
    assert!(!is_updating(0x00));
    assert!(!is_updating(0x26));
    assert!(!is_updating(0x7F));
}

#[test]
fn decode_bcd_counters() {
    let raw = DateTime { second: 0x59, minute: 0x07, hour: 0x23, day: 0x31, month: 0x12, year: 0x25 };
    let expected = DateTime { second: 59, minute: 7, hour: 23, day: 31, month: 12, year: 25 };
    assert_eq!(decode(raw, 0x00), expected);
    assert_eq!(decode(raw, 0x02), expected);
    assert_eq!(decode(raw, 0xFB), expected);
}

#[test]
fn decode_binary_counters() {
    let raw = DateTime { second: 59, minute: 7, hour: 23, day: 31, month: 12, year: 25 };
    assert_eq!(decode(raw, 0x04), raw);
    assert_eq!(decode(raw, 0x06), raw);
    assert_eq!(decode(raw, 0xFF), raw);
}

#[test]
fn format_time_pads_each_field() {
    assert_eq!(sample().format_time(), "23:07:05");
    let midnight = DateTime { second: 0, minute: 0, hour: 0, day: 1, month: 1, year: 0 };
    assert_eq!(midnight.format_time(), "00:00:00");
}

#[test]
fn format_date_writes_the_century() {
    assert_eq!(sample().format_date(), "01/02/2025");
    let new_year = DateTime { second: 0, minute: 0, hour: 0, day: 31, month: 12, year: 99 };
    assert_eq!(new_year.format_date(), "31/12/2099");
    let start = DateTime { second: 0, minute: 0, hour: 0, day: 1, month: 1, year: 0 };
    assert_eq!(start.format_date(), "01/01/2000");
}

#[test]
fn format_full_is_date_then_time() {
    assert_eq!(sample().format_full(), "01/02/2025 23:07:05");
}

#[test]
fn format_does_not_cut_unchecked_values() {
    let odd = DateTime { second: 165, minute: 100, hour: 255, day: 200, month: 13, year: 165 };
    assert_eq!(odd.format_time(), "255:100:165");
    assert_eq!(odd.format_date(), "200/13/20165");
}

#[test]
fn read_waits_for_the_update_to_end() {
    let mut rtc = Rtc::new();
    assert_eq!(rtc.next_register(), 0x0A);
    assert_eq!(rtc.read_datetime(0x80), None);
    assert_eq!(rtc.next_register(), 0x0A);
    assert_eq!(rtc.read_datetime(0xA6), None);
    assert_eq!(rtc.next_register(), 0x0A);
    assert_eq!(rtc.read_datetime(0x26), None);
    assert_eq!(rtc.next_register(), 0x00);
}

#[test]
fn read_asks_for_the_counters_in_order_and_decodes_bcd() {
    let mut rtc = Rtc::new();
    let replies: [u8; 8] = [0x26, 0x05, 0x07, 0x23, 0x01, 0x02, 0x25, 0x02];
    let registers: [u8; 8] = [0x0A, 0x00, 0x02, 0x04, 0x07, 0x08, 0x09, 0x0B];
    let mut done = None;
    for i in 0..8 {
        assert_eq!(done, None);
        assert_eq!(rtc.next_register(), registers[i]);
        done = rtc.read_datetime(replies[i]);
    }
    assert_eq!(done, Some(sample()));
    assert_eq!(rtc.next_register(), 0x0A);
}

#[test]
fn read_keeps_binary_counters() {
    let mut rtc = Rtc::new();
    let replies: [u8; 7] = [0x00, 59, 58, 23, 31, 12, 99];
    for reply in replies {
        assert_eq!(rtc.read_datetime(reply), None);
    }
    assert_eq!(rtc.next_register(), 0x0B);
    let expected = DateTime { second: 59, minute: 58, hour: 23, day: 31, month: 12, year: 99 };
    assert_eq!(rtc.read_datetime(0x04), Some(expected));
}

#[test]
fn driver_reads_again_after_a_read() {
    let mut rtc = Rtc::new();
    for reply in [0x00u8, 0x01, 0x02, 0x03, 0x04, 0x05, 0x06] {
        assert_eq!(rtc.read_datetime(reply), None);
    }
    let first = DateTime { second: 1, minute: 2, hour: 3, day: 4, month: 5, year: 6 };
    assert_eq!(rtc.read_datetime(0x00), Some(first));
    assert_eq!(rtc.read_datetime(0x80), None);
    for reply in [0x00u8, 0x11, 0x12, 0x13, 0x14, 0x15, 0x16] {
        assert_eq!(rtc.read_datetime(reply), None);
    }
    let second = DateTime { second: 11, minute: 12, hour: 13, day: 14, month: 15, year: 16 };
    assert_eq!(rtc.read_datetime(0x00), Some(second));
}

#[test]
fn clock_chip_sits_on_its_two_ports() {
    assert_eq!(RTC_ADDR, 0x70);
    assert_eq!(RTC_DATA, 0x71);
    assert_eq!(STATUS_A, 0x0A);
    assert_eq!(STATUS_B, 0x0B);
}
