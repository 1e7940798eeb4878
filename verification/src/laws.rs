//! What holds of every device, whatever it has been through.

use crate::device::{
    ConsumptionView, DeviceView, StandbyStatus, MAX_POWER_MILLIWATTS, MIN_POWER_MILLIWATTS,
};
use crate::device::DeviceSnapshot;
use crate::handlers::{
    first_with_id, has_id, power_answer, power_of, roster_after_power, RequestError,
    STATUS_BAD_REQUEST, STATUS_NOT_FOUND,
};
use crate::history::{keep_last, lemma_keep_last_push};
use vstd::prelude::*;

verus! {

/// A sample offered to a device that is on makes its history one entry
/// longer, unless the history is full already: then its length stays at the
/// bound.
pub proof fn law_tick_extends_history(device: DeviceView, sample: ConsumptionView)
    requires
        device.wf(),
        device.power == StandbyStatus::On,
    ensures
        device.record(sample).consumption_data.len() == if device.consumption_data.len()
            < device.max_entries {
            device.consumption_data.len() + 1
        } else {
            device.max_entries
        },
        device.max_entries > 0 ==> device.record(sample).consumption_data.last() == sample,
{
}

/// A simulated sample offered to a device that is on raises its total by
/// exactly the sample's energy, and that is more than nothing. This is said
/// of ticks that take time, and of totals that the sum still fits.
pub proof fn law_tick_adds_energy(device: DeviceView, sample: ConsumptionView)
    requires
        device.power == StandbyStatus::On,
        sample.simulated_for(device.update_interval),
        device.update_interval > 0,
        device.total_consumption + sample.energy_consumed <= u128::MAX,
    ensures
        device.record(sample).total_consumption == device.total_consumption
            + sample.energy_consumed,
        device.record(sample).total_consumption > device.total_consumption,
{
    assert(sample.power_usage * device.update_interval > 0) by (nonlinear_arith)
        requires
            sample.power_usage >= 50_000,
            device.update_interval > 0,
    ;
}

/// The total of a device never goes down on a tick.
pub proof fn law_tick_never_lowers_total(device: DeviceView, after: DeviceView)
    requires
        device.wf(),
        device.ticks_to(after),
    ensures
        after.total_consumption >= device.total_consumption,
{
}

/// A tick leaves a device that is off exactly as it was: its history, its
/// total and all the rest.
pub proof fn law_tick_off_changes_nothing(device: DeviceView, after: DeviceView)
    requires
        device.power == StandbyStatus::Off,
        device.ticks_to(after),
    ensures
        after == device,
{
}

/// A device that is off takes no sample that it is offered.
pub proof fn law_off_records_nothing(device: DeviceView, sample: ConsumptionView)
    requires
        device.power == StandbyStatus::Off,
    ensures
        device.record(sample) == device,
{
}

/// Neither a sample nor a change of power takes a history over its bound, or
/// leaves a total on a device that is off.
pub proof fn law_wf_is_kept(device: DeviceView, sample: ConsumptionView, power: StandbyStatus)
    requires
        device.wf(),
    ensures
        device.record(sample).wf(),
        device.set_power(power).wf(),
        device.record(sample).consumption_data.len() <= device.max_entries,
{
}

/// A tick keeps a device well formed, and changes neither its id, its name,
/// its power state nor its configuration.
pub proof fn law_tick_keeps_identity(device: DeviceView, after: DeviceView)
    requires
        device.wf(),
        device.ticks_to(after),
    ensures
        after.wf(),
        after.id == device.id,
        after.name == device.name,
        after.power == device.power,
        after.update_interval == device.update_interval,
        after.max_entries == device.max_entries,
{
}

/// After any run of samples, a device that is on is still on and well
/// formed, with the configuration it had.
pub proof fn law_record_all_keeps_shape(device: DeviceView, samples: Seq<ConsumptionView>)
    requires
        device.wf(),
    ensures
        device.record_all(samples).wf(),
        device.record_all(samples).power == device.power,
        device.record_all(samples).max_entries == device.max_entries,
        device.record_all(samples).update_interval == device.update_interval,
        device.record_all(samples).id == device.id,
    decreases samples.len(),
{
    if samples.len() > 0 {
        law_record_all_keeps_shape(device, samples.drop_last());
    }
}

/// The history of a device that is on holds, after any run of samples, the
/// most recent ones of all it was ever offered, in the order they came,
/// as many as its bound allows: samples leave oldest first.
pub proof fn law_history_keeps_latest(device: DeviceView, samples: Seq<ConsumptionView>)
    requires
        device.wf(),
        device.power == StandbyStatus::On,
    ensures
        device.record_all(samples).consumption_data == keep_last(
            device.consumption_data + samples,
            device.max_entries,
        ),
        device.record_all(samples).consumption_data.len() <= device.max_entries,
    decreases samples.len(),
{
    if samples.len() == 0 {
        assert(device.consumption_data + samples =~= device.consumption_data);
    } else {
        let earlier = samples.drop_last();
        law_history_keeps_latest(device, earlier);
        law_record_all_keeps_shape(device, earlier);
        lemma_keep_last_push(device.consumption_data + earlier, samples.last(), device.max_entries);
        assert((device.consumption_data + earlier).push(samples.last()) =~= device.consumption_data
            + samples);
    }
}

/// Setting the power to `Off` leaves a total of zero, whatever the total
/// was, and whether the device was on or off.
pub proof fn law_off_resets_total(device: DeviceView)
    ensures
        device.set_power(StandbyStatus::Off).total_consumption == 0,
        device.set_power(StandbyStatus::Off).power == StandbyStatus::Off,
        device.set_power(StandbyStatus::Off).consumption_data == device.consumption_data,
{
}

/// Setting the power to `On` keeps the total.
pub proof fn law_on_keeps_total(device: DeviceView)
    ensures
        device.set_power(StandbyStatus::On).total_consumption == device.total_consumption,
{
}

/// Setting the same power twice is the same as setting it once.
pub proof fn law_set_power_twice(device: DeviceView, power: StandbyStatus)
    ensures
        device.set_power(power).set_power(power) == device.set_power(power),
{
}

/// The energy of a simulated sample is its power over the interval: never
/// less than the lowest power over the interval, and always below the power
/// that readings stay under, over the interval.
pub proof fn law_simulated_energy_bounds(sample: ConsumptionView, interval: nat)
    requires
        sample.simulated_for(interval),
    ensures
        MIN_POWER_MILLIWATTS <= sample.power_usage < MAX_POWER_MILLIWATTS,
        sample.energy_consumed == sample.power_usage * interval,
        MIN_POWER_MILLIWATTS * interval <= sample.energy_consumed,
        sample.energy_consumed <= (MAX_POWER_MILLIWATTS - 1) * interval,
        sample.energy_consumed >= 0,
{
    assert(50_000 * interval <= sample.power_usage * interval && sample.power_usage * interval
        <= 199_999 * interval) by (nonlinear_arith)
        requires
            50_000 <= sample.power_usage <= 199_999,
    ;
}

/// A roster has at most one first device with a given id, and it has one
/// exactly when some device has that id.
pub proof fn law_first_with_id_is_unique(devices: Seq<DeviceView>, id: u16, a: int, b: int)
    requires
        first_with_id(devices, id, a),
        first_with_id(devices, id, b),
    ensures
        a == b,
        has_id(devices, id),
{
}

/// A request that is turned down leaves every device as it was, and is
/// reported as a bad request when it names no power state, else as a device
/// that is not there.
pub proof fn law_rejected_request_changes_nothing(
    devices: Seq<DeviceView>,
    id: u16,
    requested: Option<Seq<char>>,
    after: Seq<DeviceView>,
    outcome: Result<DeviceSnapshot, RequestError>,
)
    requires
        roster_after_power(devices, id, requested, after),
        power_answer(devices, id, requested, after, outcome),
        power_of(requested) is None || !has_id(devices, id),
    ensures
        after == devices,
        outcome is Err,
        outcome->Err_0.status() == if power_of(requested) is None {
            STATUS_BAD_REQUEST
        } else {
            STATUS_NOT_FOUND
        },
{
    if outcome is Ok {
        let at = choose|at: int| first_with_id(devices, id, at);
        assert(devices[at].id == id);
    }
}

/// A request to switch a device off that is there is answered with a total
/// of zero, whatever the device had consumed, and no other device changes.
pub proof fn law_switching_off_is_answered_with_zero(
    devices: Seq<DeviceView>,
    id: u16,
    requested: Option<Seq<char>>,
    after: Seq<DeviceView>,
    outcome: Result<DeviceSnapshot, RequestError>,
)
    requires
        roster_after_power(devices, id, requested, after),
        power_answer(devices, id, requested, after, outcome),
        power_of(requested) == Some(StandbyStatus::Off),
        has_id(devices, id),
    ensures
        outcome is Ok,
        outcome->Ok_0@.total_consumption == 0,
        outcome->Ok_0@.power == StandbyStatus::Off,
        outcome->Ok_0@.id == id,
        after.len() == devices.len(),
        forall|at: int|
            0 <= at < devices.len() && !first_with_id(devices, id, at) ==> #[trigger] after[at]
                == devices[at],
{
    let changed = choose|at: int|
        first_with_id(devices, id, at) && after == devices.update(
            at,
            (#[trigger] devices[at]).set_power(StandbyStatus::Off),
        );
    if let Ok(shown) = outcome {
        let at = choose|at: int|
            first_with_id(devices, id, at) && shown@ == (#[trigger] after[at]).snapshot();
        law_first_with_id_is_unique(devices, id, at, changed);
    }
}

} // verus!
