use device_sim::args::Args;
use device_sim::device::{
    create_default_devices, update_devices, ConsumptionData, Device, StandbyStatus,
    MAX_POWER_MILLIWATTS, MILLIWATT_SECONDS_PER_WATT_HOUR, MIN_POWER_MILLIWATTS,
};

fn reading(stamp: &str, power_usage: u32, interval: u64) -> ConsumptionData {
    ConsumptionData::new(stamp.to_string(), power_usage, interval)
}

#[test]
fn a_new_device_has_recorded_nothing() {
    let device = Device::new(7, "Lamp".to_string(), StandbyStatus::On, 60, 5);
    assert_eq!(device.id(), 7);
    assert_eq!(device.name(), "Lamp");
    assert_eq!(device.power(), StandbyStatus::On);
    assert_eq!(device.total_consumption(), 0);
    assert!(device.consumption_data().is_empty());
    assert_eq!(device.update_interval(), 60);
    assert_eq!(device.max_entries(), 5);
}

#[test]
fn a_reading_carries_power_times_interval() {
    let sample = reading("2024-01-01T00:00:00Z", 120_000, 60);
    assert_eq!(sample.power_usage(), 120_000);
    assert_eq!(sample.energy_consumed(), 7_200_000);
    assert_eq!(sample.timestamp(), "2024-01-01T00:00:00Z");
}

#[test]
fn one_hour_at_one_watt_is_one_watt_hour() {
    let sample = reading("t", 1_000, 3_600);
    assert_eq!(sample.energy_consumed(), MILLIWATT_SECONDS_PER_WATT_HOUR);
}

#[test]
fn the_largest_reading_fits() {
    let sample = reading("t", u32::MAX, u64::MAX);
    assert_eq!(sample.energy_consumed(), (u32::MAX as u128) * (u64::MAX as u128));
}

#[test]
fn a_simulated_entry_stays_in_range() {
    for _ in 0..2_000 {
        let sample = ConsumptionData::simulate_entry(60);
        assert!(sample.power_usage() >= MIN_POWER_MILLIWATTS);
        assert!(sample.power_usage() < MAX_POWER_MILLIWATTS);
        assert_eq!(sample.energy_consumed(), sample.power_usage() as u128 * 60);
    }
}

#[test]
fn simulated_entries_differ() {
    let first = ConsumptionData::simulate_entry(60).power_usage();
    let mut other = false;
    for _ in 0..200 {
        let next = ConsumptionData::simulate_entry(60).power_usage();
        other = other || next != first;
    }
    assert!(other);
    let mut above_minimum = false;
    for _ in 0..200 {
        above_minimum = above_minimum
            || ConsumptionData::simulate_entry(60).power_usage() != MIN_POWER_MILLIWATTS;
    }
    assert!(above_minimum);
}

#[test]
fn a_simulated_entry_over_no_time_has_no_energy() {
    let sample = ConsumptionData::simulate_entry(0);
    assert_eq!(sample.energy_consumed(), 0);
    assert!(sample.power_usage() >= MIN_POWER_MILLIWATTS);
}

#[test]
fn a_tick_on_a_device_that_is_on_adds_one_sample() {
    let mut device = Device::new(1, "Fridge".to_string(), StandbyStatus::On, 60, 5);
    let produced = device.on_tick();
    let sample = produced.expect("a device that is on produces a sample");
    assert_eq!(device.consumption_data().len(), 1);
    assert_eq!(device.consumption_data()[0], sample);
    assert_eq!(device.total_consumption(), sample.energy_consumed());
    assert!(device.total_consumption() > 0);

    let before = device.total_consumption();
    let second = device.on_tick().expect("still on");
    assert_eq!(device.consumption_data().len(), 2);
    assert_eq!(device.total_consumption(), before + second.energy_consumed());
    assert!(device.total_consumption() > before);
}

#[test]
fn a_tick_on_a_device_that_is_off_changes_nothing() {
    let mut device = Device::new(1, "Fridge".to_string(), StandbyStatus::Off, 60, 5);
    let before = device.clone();
    assert!(device.on_tick().is_none());
    assert_eq!(device, before);
    assert_eq!(device.total_consumption(), 0);
    assert!(device.consumption_data().is_empty());
}

#[test]
fn a_sample_offered_to_a_device_that_is_off_is_dropped() {
    let mut device = Device::new(1, "Fridge".to_string(), StandbyStatus::On, 60, 5);
    device.record(reading("a", 100_000, 60));
    device.set_power(StandbyStatus::Off);
    let before = device.clone();
    device.record(reading("b", 100_000, 60));
    assert_eq!(device, before);
}

#[test]
fn three_ticks_on_a_history_of_two_keep_the_last_two() {
    let mut device = Device::new(1, "Fridge".to_string(), StandbyStatus::On, 60, 2);
    let first = device.on_tick().expect("on");
    let second = device.on_tick().expect("on");
    let third = device.on_tick().expect("on");
    assert_eq!(device.consumption_data().len(), 2);
    assert_eq!(device.consumption_data()[0], second);
    assert_eq!(device.consumption_data()[1], third);
    assert_eq!(
        device.total_consumption(),
        first.energy_consumed() + second.energy_consumed() + third.energy_consumed()
    );
}

#[test]
fn the_oldest_sample_leaves_first() {
    let mut device = Device::new(1, "Fridge".to_string(), StandbyStatus::On, 10, 3);
    let stamps = ["a", "b", "c", "d", "e", "f", "g"];
    for (count, stamp) in stamps.iter().enumerate() {
        device.record(reading(stamp, 50_000 + count as u32, 10));
        assert!(device.consumption_data().len() <= 3);
        assert_eq!(device.consumption_data().len(), (count + 1).min(3));
        let kept: Vec<&str> = device.consumption_data().iter().map(|s| s.timestamp()).collect();
        let from = (count + 1).saturating_sub(3);
        assert_eq!(kept, stamps[from..count + 1].to_vec());
    }
    assert_eq!(device.total_consumption(), (7 * 50_000 + 21) * 10);
}

#[test]
fn a_history_of_one_holds_the_latest_sample() {
    let mut device = Device::new(1, "Fridge".to_string(), StandbyStatus::On, 60, 1);
    device.record(reading("a", 60_000, 60));
    device.record(reading("b", 70_000, 60));
    assert_eq!(device.consumption_data().len(), 1);
    assert_eq!(device.consumption_data()[0].timestamp(), "b");
    assert_eq!(device.total_consumption(), 130_000 * 60);
}

#[test]
fn a_history_of_none_still_counts_the_energy() {
    let mut device = Device::new(1, "Fridge".to_string(), StandbyStatus::On, 60, 0);
    device.record(reading("a", 60_000, 60));
    assert!(device.on_tick().is_some());
    assert!(device.consumption_data().is_empty());
    assert!(device.total_consumption() > 60_000 * 60);
}

#[test]
fn switching_off_resets_the_total() {
    let mut device = Device::new(1, "Fridge".to_string(), StandbyStatus::On, 60, 5);
    device.record(reading("a", 100_000, 60));
    device.record(reading("b", 100_000, 60));
    assert_eq!(device.total_consumption(), 12_000_000);
    device.set_power(StandbyStatus::Off);
    assert_eq!(device.power(), StandbyStatus::Off);
    assert_eq!(device.total_consumption(), 0);
    assert_eq!(device.consumption_data().len(), 2);
    device.set_power(StandbyStatus::Off);
    assert_eq!(device.total_consumption(), 0);
}

#[test]
fn switching_on_keeps_the_total() {
    let mut device = Device::new(1, "Fridge".to_string(), StandbyStatus::On, 60, 5);
    device.record(reading("a", 100_000, 60));
    device.set_power(StandbyStatus::On);
    assert_eq!(device.power(), StandbyStatus::On);
    assert_eq!(device.total_consumption(), 6_000_000);
    device.set_power(StandbyStatus::Off);
    device.set_power(StandbyStatus::On);
    assert_eq!(device.total_consumption(), 0);
    device.record(reading("b", 50_000, 60));
    assert_eq!(device.total_consumption(), 3_000_000);
}

#[test]
fn a_snapshot_shows_the_device() {
    let mut device = Device::new(3, "EV-Charger".to_string(), StandbyStatus::On, 60, 5);
    device.record(reading("a", 100_000, 60));
    let shown = device.snapshot();
    assert_eq!(shown.id, 3);
    assert_eq!(shown.name, "EV-Charger");
    assert_eq!(shown.power, StandbyStatus::On);
    assert_eq!(shown.total_consumption, 6_000_000);
    assert_eq!(shown.consumption_data, vec![reading("a", 100_000, 60)]);
    assert_eq!(shown.clone(), shown);
}

#[test]
fn the_default_roster_has_five_devices() {
    let args = Args { max_entries: 4, update_interval: 30, port: 8080 };
    let devices = create_default_devices(args);
    let names = ["Fridge", "Freezer", "EV-Charger", "Water heater", "Bathroom floor heater"];
    assert_eq!(devices.len(), 5);
    for (at, device) in devices.iter().enumerate() {
        assert_eq!(device.id() as usize, at + 1);
        assert_eq!(device.name(), names[at]);
        assert_eq!(device.power(), StandbyStatus::On);
        assert_eq!(device.total_consumption(), 0);
        assert!(device.consumption_data().is_empty());
        assert_eq!(device.update_interval(), 30);
        assert_eq!(device.max_entries(), 4);
    }
}

#[test]
fn the_defaults_are_five_sixty_and_three_thousand() {
    let args = Args::default();
    assert_eq!(args.max_entries, 5);
    assert_eq!(args.update_interval, 60);
    assert_eq!(args.port, 3000);
}

#[test]
fn a_round_ticks_every_device_that_is_on() {
    let mut devices = create_default_devices(Args::default());
    devices[2].set_power(StandbyStatus::Off);
    update_devices(&mut devices);
    update_devices(&mut devices);
    for (at, device) in devices.iter().enumerate() {
        assert_eq!(device.id() as usize, at + 1);
        if at == 2 {
            assert!(device.consumption_data().is_empty());
            assert_eq!(device.total_consumption(), 0);
        } else {
            assert_eq!(device.consumption_data().len(), 2);
            let sum: u128 = device.consumption_data().iter().map(|s| s.energy_consumed()).sum();
            assert_eq!(device.total_consumption(), sum);
        }
    }
}

#[test]
fn many_rounds_never_overfill_a_history() {
    let mut devices = create_default_devices(Args::default());
    for round in 0..12usize {
        update_devices(&mut devices);
        for device in devices.iter() {
            assert_eq!(device.consumption_data().len(), (round + 1).min(5));
        }
    }
}

#[test]
fn a_round_on_an_empty_roster_does_nothing() {
    let mut devices: Vec<Device> = Vec::new();
    update_devices(&mut devices);
    assert!(devices.is_empty());
}
