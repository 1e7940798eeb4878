use device_sim::device::ConsumptionData;
use device_sim::util::{get_current_timestamp, TIMESTAMP_FORMAT};

#[test]
fn the_timestamp_is_written_in_iso_8601() {
    let text = get_current_timestamp();
    assert_ne!(text, TIMESTAMP_FORMAT);
    let bytes = text.as_bytes();
    assert_eq!(bytes.len(), 20, "{}", text);
    for (at, byte) in bytes.iter().enumerate() {
        match at {
            4 | 7 => assert_eq!(*byte, b'-'),
            10 => assert_eq!(*byte, b'T'),
            13 | 16 => assert_eq!(*byte, b':'),
            19 => assert_eq!(*byte, b'Z'),
            _ => assert!(byte.is_ascii_digit(), "{}", text),
        }
    }
    let year: u32 = text[0..4].parse().expect("digits");
    assert!(year >= 2024);
    let month: u32 = text[5..7].parse().expect("digits");
    assert!((1..=12).contains(&month));
    let day: u32 = text[8..10].parse().expect("digits");
    assert!((1..=31).contains(&day));
    let hour: u32 = text[11..13].parse().expect("digits");
    assert!(hour < 24);
    let minute: u32 = text[14..16].parse().expect("digits");
    assert!(minute < 60);
    let second: u32 = text[17..19].parse().expect("digits");
    assert!(second <= 60);
}

#[test]
fn timestamps_do_not_run_backwards() {
    let earlier = get_current_timestamp();
    let later = get_current_timestamp();
    assert!(earlier <= later);
}

#[test]
fn a_simulated_entry_is_stamped_with_the_time() {
    let before = get_current_timestamp();
    let sample = ConsumptionData::simulate_entry(60);
    let after = get_current_timestamp();
    assert!(before.as_str() <= sample.timestamp());
    assert!(sample.timestamp() <= after.as_str());
}
