//! Devices and the samples they record.
//!
//! Quantities are held as whole numbers. Power is in milliwatts. Energy is
//! in milliwatt-seconds: the power of a reading times the seconds of the
//! tick interval it stands for. 3 600 000 milliwatt-seconds make one
//! watt-hour, the power in watts times the interval in hours.

use crate::args::Args;
use crate::history::keep_last;
use crate::util::{get_current_timestamp, is_utc_timestamp, random_in_range};
use vstd::prelude::*;

verus! {

/// The lowest power a simulated reading can show, in milliwatts (50 W).
pub const MIN_POWER_MILLIWATTS: u32 = 50_000;

/// The power that every simulated reading stays below, in milliwatts (200 W).
pub const MAX_POWER_MILLIWATTS: u32 = 200_000;

/// How many milliwatt-seconds make one watt-hour.
pub const MILLIWATT_SECONDS_PER_WATT_HOUR: u128 = 3_600_000;

/// The energy of a reading of `power_usage` milliwatts that stands for
/// `interval` seconds, in milliwatt-seconds.
pub open spec fn energy_of(power_usage: nat, interval: nat) -> nat {
    power_usage * interval
}

/// One reading of a device: when it was taken, the power drawn, and the
/// energy that this power amounts to over one tick.
#[derive(Debug, PartialEq, Eq)]
pub struct ConsumptionData {
    timestamp: String,
    power_usage: u32,
    energy_consumed: u128,
}

/// A reading as a mathematical value.
pub struct ConsumptionView {
    pub timestamp: Seq<char>,
    pub power_usage: nat,
    pub energy_consumed: nat,
}

impl View for ConsumptionData {
    type V = ConsumptionView;

    closed spec fn view(&self) -> ConsumptionView {
        ConsumptionView {
            timestamp: self.timestamp@,
            power_usage: self.power_usage as nat,
            energy_consumed: self.energy_consumed as nat,
        }
    }
}

impl ConsumptionView {
    /// A reading that the simulation can produce for a tick of `interval`
    /// seconds: its power lies in the simulated range and its energy is that
    /// power over the interval.
    pub open spec fn simulated_for(self, interval: nat) -> bool {
        &&& MIN_POWER_MILLIWATTS <= self.power_usage < MAX_POWER_MILLIWATTS
        &&& self.energy_consumed == energy_of(self.power_usage, interval)
    }
}

impl Clone for ConsumptionData {
    fn clone(&self) -> (copy: ConsumptionData)
        ensures
            copy == *self,
    {
        ConsumptionData {
            timestamp: self.timestamp.clone(),
            power_usage: self.power_usage,
            energy_consumed: self.energy_consumed,
        }
    }
}

impl ConsumptionData {
    /// The reading taken at `timestamp` that shows `power_usage` milliwatts,
    /// for a tick of `interval` seconds.
    pub fn new(timestamp: String, power_usage: u32, interval: u64) -> (sample: ConsumptionData)
        ensures
            sample@ == (ConsumptionView {
                timestamp: timestamp@,
                power_usage: power_usage as nat,
                energy_consumed: energy_of(power_usage as nat, interval as nat),
            }),
    {
        assert(power_usage * interval <= u32::MAX * u64::MAX) by (nonlinear_arith)
            requires
                power_usage <= u32::MAX,
                interval <= u64::MAX,
        ;
        let energy_consumed: u128 = (power_usage as u128) * (interval as u128);
        ConsumptionData { timestamp, power_usage, energy_consumed }
    }

    /// Simulate an entry of a consumption history: a reading stamped with the
    /// current time, whose power is drawn at random from
    /// [`MIN_POWER_MILLIWATTS`] up to, not including, [`MAX_POWER_MILLIWATTS`].
    pub fn simulate_entry(interval: u64) -> (sample: ConsumptionData)
        ensures
            sample@.simulated_for(interval as nat),
            is_utc_timestamp(sample@.timestamp),
    {
        let timestamp = get_current_timestamp();
        let power_usage: u32 = random_in_range(MIN_POWER_MILLIWATTS, MAX_POWER_MILLIWATTS);
        ConsumptionData::new(timestamp, power_usage, interval)
    }

    /// When the reading was taken.
    pub fn timestamp(&self) -> (text: &str)
        ensures
            text@ == self@.timestamp,
    {
        self.timestamp.as_str()
    }

    /// The power drawn, in milliwatts.
    pub fn power_usage(&self) -> (milliwatts: u32)
        ensures
            milliwatts == self@.power_usage,
    {
        self.power_usage
    }

    /// The energy of this reading's tick, in milliwatt-seconds.
    pub fn energy_consumed(&self) -> (milliwatt_seconds: u128)
        ensures
            milliwatt_seconds == self@.energy_consumed,
    {
        self.energy_consumed
    }
}

/// Copies a history entry by entry.
fn copy_samples(samples: &Vec<ConsumptionData>) -> (copies: Vec<ConsumptionData>)
    ensures
        copies@ == samples@,
{
    let mut copies: Vec<ConsumptionData> = Vec::new();
    let mut next: usize = 0;
    while next < samples.len()
        invariant
            next <= samples.len(),
            copies@ == samples@.subrange(0, next as int),
        decreases samples.len() - next,
    {
        copies.push(samples[next].clone());
        assert(copies@ == samples@.subrange(0, next + 1));
        next = next + 1;
    }
    assert(samples@.subrange(0, samples.len() as int) == samples@);
    copies
}

/// The readings of a history as mathematical values, oldest first.
pub open spec fn views_of(samples: Seq<ConsumptionData>) -> Seq<ConsumptionView> {
    samples.map_values(|sample: ConsumptionData| sample@)
}

/// Whether a device draws power. A device that is `Off` takes no samples.
#[derive(Clone, Copy, Debug, PartialEq, Eq, Structural)]
pub enum StandbyStatus {
    On,
    Off,
}

/// `total` grown by `energy`, held at the largest total that a device can
/// carry.
pub open spec fn total_after(total: nat, energy: nat) -> nat {
    if total + energy <= u128::MAX {
        total + energy
    } else {
        u128::MAX as nat
    }
}

/// A device as a mathematical value.
pub struct DeviceView {
    pub id: u16,
    pub name: Seq<char>,
    pub power: StandbyStatus,
    /// Energy taken up since the device was last switched off, in
    /// milliwatt-seconds.
    pub total_consumption: nat,
    /// The most recent samples, oldest first.
    pub consumption_data: Seq<ConsumptionView>,
    /// Seconds between two ticks.
    pub update_interval: nat,
    /// The most samples that the history holds.
    pub max_entries: nat,
}

impl DeviceView {
    /// A device that has not recorded anything yet.
    pub open spec fn fresh(
        id: u16,
        name: Seq<char>,
        power: StandbyStatus,
        update_interval: nat,
        max_entries: nat,
    ) -> DeviceView {
        DeviceView {
            id,
            name,
            power,
            total_consumption: 0,
            consumption_data: Seq::empty(),
            update_interval,
            max_entries,
        }
    }

    /// What holds of every device: its history is within its bound, and while
    /// it is off its total stands at zero.
    pub open spec fn wf(self) -> bool {
        &&& self.consumption_data.len() <= self.max_entries
        &&& self.total_consumption <= u128::MAX
        &&& self.power == StandbyStatus::Off ==> self.total_consumption == 0
    }

    /// The device after it has been offered `sample`. A device that is on
    /// adds the sample's energy to its total and appends the sample to its
    /// history, which then keeps its most recent `max_entries` samples. A
    /// device that is off stays as it is.
    pub open spec fn record(self, sample: ConsumptionView) -> DeviceView {
        if self.power == StandbyStatus::On {
            DeviceView {
                total_consumption: total_after(self.total_consumption, sample.energy_consumed),
                consumption_data: keep_last(self.consumption_data.push(sample), self.max_entries),
                ..self
            }
        } else {
            self
        }
    }

    /// The device after it has been offered each of `samples` in turn.
    pub open spec fn record_all(self, samples: Seq<ConsumptionView>) -> DeviceView
        decreases samples.len(),
    {
        if samples.len() == 0 {
            self
        } else {
            self.record_all(samples.drop_last()).record(samples.last())
        }
    }

    /// The device after one tick that produced `produced`: a device that is
    /// on records the sample, a device that is off is left alone.
    pub open spec fn tick(self, produced: Option<ConsumptionView>) -> DeviceView {
        match produced {
            Some(sample) => self.record(sample),
            None => self,
        }
    }

    /// Whether `after` is this device one tick later.
    pub open spec fn ticks_to(self, after: DeviceView) -> bool {
        if self.power == StandbyStatus::On {
            exists|sample: ConsumptionView|
                sample.simulated_for(self.update_interval) && after == #[trigger] self.record(
                    sample,
                )
        } else {
            after == self
        }
    }

    /// The device after its power has been set to `power`. Setting it to
    /// `Off` puts the total back to zero; the history stays.
    pub open spec fn set_power(self, power: StandbyStatus) -> DeviceView {
        DeviceView {
            power,
            total_consumption: if power == StandbyStatus::Off {
                0
            } else {
                self.total_consumption
            },
            ..self
        }
    }

    /// What of the device is shown to the outside.
    pub open spec fn snapshot(self) -> SnapshotView {
        SnapshotView {
            id: self.id,
            name: self.name,
            power: self.power,
            total_consumption: self.total_consumption,
            consumption_data: self.consumption_data,
        }
    }
}

/// One simulated appliance: its power state, the energy it has taken up, and
/// its most recent samples.
#[derive(Debug, PartialEq, Eq)]
pub struct Device {
    id: u16,
    name: String,
    power: StandbyStatus,
    total_consumption: u128,
    consumption_data: Vec<ConsumptionData>,
    update_interval: u64,
    max_entries: usize,
}

impl View for Device {
    type V = DeviceView;

    closed spec fn view(&self) -> DeviceView {
        DeviceView {
            id: self.id,
            name: self.name@,
            power: self.power,
            total_consumption: self.total_consumption as nat,
            consumption_data: views_of(self.consumption_data@),
            update_interval: self.update_interval as nat,
            max_entries: self.max_entries as nat,
        }
    }
}

/// A copy of what a device shows to the outside, taken at one moment. The
/// tick interval and the bound of the history are configuration and are left
/// out.
#[derive(Debug, PartialEq, Eq)]
pub struct DeviceSnapshot {
    pub id: u16,
    pub name: String,
    pub power: StandbyStatus,
    /// In milliwatt-seconds.
    pub total_consumption: u128,
    /// Oldest first.
    pub consumption_data: Vec<ConsumptionData>,
}

/// A snapshot as a mathematical value.
pub struct SnapshotView {
    pub id: u16,
    pub name: Seq<char>,
    pub power: StandbyStatus,
    pub total_consumption: nat,
    pub consumption_data: Seq<ConsumptionView>,
}

impl View for DeviceSnapshot {
    type V = SnapshotView;

    open spec fn view(&self) -> SnapshotView {
        SnapshotView {
            id: self.id,
            name: self.name@,
            power: self.power,
            total_consumption: self.total_consumption as nat,
            consumption_data: views_of(self.consumption_data@),
        }
    }
}

impl Clone for Device {
    fn clone(&self) -> (copy: Device)
        ensures
            copy@ == self@,
    {
        Device {
            id: self.id,
            name: self.name.clone(),
            power: self.power,
            total_consumption: self.total_consumption,
            consumption_data: copy_samples(&self.consumption_data),
            update_interval: self.update_interval,
            max_entries: self.max_entries,
        }
    }
}

impl Clone for DeviceSnapshot {
    fn clone(&self) -> (copy: DeviceSnapshot)
        ensures
            copy@ == self@,
    {
        DeviceSnapshot {
            id: self.id,
            name: self.name.clone(),
            power: self.power,
            total_consumption: self.total_consumption,
            consumption_data: copy_samples(&self.consumption_data),
        }
    }
}

impl Device {
    /// A device with an empty history and nothing consumed.
    pub fn new(
        id: u16,
        name: String,
        power: StandbyStatus,
        update_interval: u64,
        max_entries: usize,
    ) -> (device: Device)
        ensures
            device@ == DeviceView::fresh(
                id,
                name@,
                power,
                update_interval as nat,
                max_entries as nat,
            ),
            device@.wf(),
    {
        let device = Device {
            id,
            name,
            power,
            total_consumption: 0,
            consumption_data: Vec::new(),
            update_interval,
            max_entries,
        };
        assert(device@.consumption_data =~= Seq::empty());
        device
    }

    /// Offers `sample` to the device, which takes it if it is on.
    pub fn record(&mut self, sample: ConsumptionData)
        requires
            old(self)@.wf(),
        ensures
            final(self)@ == old(self)@.record(sample@),
            final(self)@.wf(),
    {
        match self.power {
            StandbyStatus::Off => {},
            StandbyStatus::On => {
                self.total_consumption = self.total_consumption.saturating_add(
                    sample.energy_consumed,
                );
                if self.max_entries > 0 {
                    if self.consumption_data.len() >= self.max_entries {
                        self.consumption_data.remove(0);
                    }
                    self.consumption_data.push(sample);
                }
                assert(self@.consumption_data =~= keep_last(
                    old(self)@.consumption_data.push(sample@),
                    old(self)@.max_entries,
                ));
            },
        }
    }

    /// One tick of the simulation. A device that is on takes a fresh
    /// simulated sample and returns a copy of it; a device that is off
    /// produces nothing and stays as it is.
    pub fn on_tick(&mut self) -> (produced: Option<ConsumptionData>)
        requires
            old(self)@.wf(),
        ensures
            produced is Some <==> old(self)@.power == StandbyStatus::On,
            produced matches Some(sample) ==> sample@.simulated_for(old(self)@.update_interval),
            produced matches Some(sample) ==> is_utc_timestamp(sample@.timestamp),
            final(self)@ == old(self)@.tick(
                match produced {
                    Some(sample) => Some(sample@),
                    None => None,
                },
            ),
            old(self)@.ticks_to(final(self)@),
            final(self)@.wf(),
    {
        match self.power {
            StandbyStatus::Off => None,
            StandbyStatus::On => {
                let new_data = ConsumptionData::simulate_entry(self.update_interval);
                let produced = new_data.clone();
                self.record(new_data);
                Some(produced)
            },
        }
    }

    /// Sets the power state. Whenever `Off` is asked for, the total goes
    /// back to zero, also where the device was off already.
    pub fn set_power(&mut self, power: StandbyStatus)
        ensures
            final(self)@ == old(self)@.set_power(power),
            power == StandbyStatus::Off ==> final(self)@.total_consumption == 0,
            old(self)@.wf() ==> final(self)@.wf(),
    {
        match power {
            StandbyStatus::Off => {
                self.total_consumption = 0;
            },
            StandbyStatus::On => {},
        }
        self.power = power;
    }

    /// The id that the device was created with.
    pub fn id(&self) -> (id: u16)
        ensures
            id == self@.id,
    {
        self.id
    }

    /// The name that the device was created with.
    pub fn name(&self) -> (name: &str)
        ensures
            name@ == self@.name,
    {
        self.name.as_str()
    }

    /// Whether the device is on.
    pub fn power(&self) -> (power: StandbyStatus)
        ensures
            power == self@.power,
    {
        self.power
    }

    /// The energy taken up since the device was last switched off, in
    /// milliwatt-seconds.
    pub fn total_consumption(&self) -> (milliwatt_seconds: u128)
        ensures
            milliwatt_seconds == self@.total_consumption,
    {
        self.total_consumption
    }

    /// The samples that the device still holds, oldest first.
    pub fn consumption_data(&self) -> (samples: &Vec<ConsumptionData>)
        ensures
            views_of(samples@) == self@.consumption_data,
    {
        &self.consumption_data
    }

    /// The seconds between two ticks.
    pub fn update_interval(&self) -> (seconds: u64)
        ensures
            seconds == self@.update_interval,
    {
        self.update_interval
    }

    /// The most samples that the history holds.
    pub fn max_entries(&self) -> (bound: usize)
        ensures
            bound == self@.max_entries,
    {
        self.max_entries
    }

    /// A copy of what the device shows to the outside.
    pub fn snapshot(&self) -> (shown: DeviceSnapshot)
        ensures
            shown@ == self@.snapshot(),
    {
        DeviceSnapshot {
            id: self.id,
            name: self.name.clone(),
            power: self.power,
            total_consumption: self.total_consumption,
            consumption_data: copy_samples(&self.consumption_data),
        }
    }
}

/// The devices of a roster as mathematical values, in roster order.
pub open spec fn roster_view(devices: Seq<Device>) -> Seq<DeviceView> {
    devices.map_values(|device: Device| device@)
}

/// Every device of the roster is well formed.
pub open spec fn roster_wf(devices: Seq<DeviceView>) -> bool {
    forall|at: int| 0 <= at < devices.len() ==> (#[trigger] devices[at]).wf()
}

/// No two devices of the roster share an id.
pub open spec fn distinct_ids(devices: Seq<DeviceView>) -> bool {
    forall|a: int, b: int|
        0 <= a < b < devices.len() ==> (#[trigger] devices[a]).id != (#[trigger] devices[b]).id
}

/// The ids of the roster, in roster order.
pub open spec fn ids_of(devices: Seq<DeviceView>) -> Seq<u16> {
    devices.map_values(|device: DeviceView| device.id)
}

/// How many devices the default roster has.
pub const DEFAULT_DEVICE_COUNT: usize = 5;

/// The names of the default roster, in roster order.
pub open spec fn default_names() -> Seq<Seq<char>> {
    seq!["Fridge"@, "Freezer"@, "EV-Charger"@, "Water heater"@, "Bathroom floor heater"@]
}

/// The default roster under `args`: five devices with the ids 1 to 5, all
/// switched on, with empty histories.
pub open spec fn default_roster(args: Args) -> Seq<DeviceView> {
    Seq::new(
        DEFAULT_DEVICE_COUNT as nat,
        |at: int|
            DeviceView::fresh(
                (at + 1) as u16,
                default_names()[at],
                StandbyStatus::On,
                args.update_interval as nat,
                args.max_entries as nat,
            ),
    )
}

/// Helper function to create a vector of hardcoded devices
pub fn create_default_devices(args: Args) -> (devices: Vec<Device>)
    ensures
        roster_view(devices@) == default_roster(args),
        roster_wf(roster_view(devices@)),
        distinct_ids(roster_view(devices@)),
{
    let names: [&str; 5] = [
        "Fridge",
        "Freezer",
        "EV-Charger",
        "Water heater",
        "Bathroom floor heater",
    ];
    let mut devices: Vec<Device> = Vec::new();
    let mut at: usize = 0;
    while at < DEFAULT_DEVICE_COUNT
        invariant
            at <= DEFAULT_DEVICE_COUNT,
            names@.len() == DEFAULT_DEVICE_COUNT,
            forall|k: int| 0 <= k < names@.len() ==> (#[trigger] names@[k])@ == default_names()[k],
            devices@.len() == at,
            forall|k: int|
                0 <= k < at ==> (#[trigger] roster_view(devices@)[k]) == default_roster(args)[k],
        decreases DEFAULT_DEVICE_COUNT - at,
    {
        let id: u16 = (at + 1) as u16;
        let ghost before = devices@;
        devices.push(
            Device::new(
                id,
                names[at].to_owned(),
                StandbyStatus::On,
                args.update_interval,
                args.max_entries,
            ),
        );
        assert forall|k: int| 0 <= k < at + 1 implies (#[trigger] roster_view(devices@)[k])
            == default_roster(args)[k] by {
            if k < at {
                assert(roster_view(devices@)[k] == roster_view(before)[k]);
            }
        }
        at = at + 1;
    }
    assert(roster_view(devices@) =~= default_roster(args));
    devices
}

/// One round of the simulation: every device of the roster ticks once, in
/// roster order.
pub fn update_devices(devices: &mut Vec<Device>)
    requires
        roster_wf(roster_view(old(devices)@)),
    ensures
        final(devices)@.len() == old(devices)@.len(),
        forall|at: int|
            0 <= at < old(devices)@.len() ==> (#[trigger] roster_view(old(devices)@)[at]).ticks_to(
                roster_view(final(devices)@)[at],
            ),
        ids_of(roster_view(final(devices)@)) == ids_of(roster_view(old(devices)@)),
        roster_wf(roster_view(final(devices)@)),
{
    let count: usize = devices.len();
    let mut next: usize = 0;
    while next < count
        invariant
            next <= count,
            devices@.len() == count,
            old(devices)@.len() == count,
            forall|at: int|
                0 <= at < next ==> (#[trigger] roster_view(old(devices)@)[at]).ticks_to(
                    roster_view(devices@)[at],
                ),
            forall|at: int|
                next <= at < count ==> (#[trigger] roster_view(devices@)[at]) == roster_view(
                    old(devices)@,
                )[at],
            roster_wf(roster_view(devices@)),
        decreases count - next,
    {
        let ghost before = roster_view(devices@);
        assert(before[next as int].wf());
        devices[next].on_tick();
        assert forall|at: int| 0 <= at < count && at != next implies (#[trigger] roster_view(
            devices@,
        )[at]) == before[at] by {}
        next = next + 1;
    }
    assert(ids_of(roster_view(devices@)) =~= ids_of(roster_view(old(devices)@)));
}

} // verus!
