//! Plain facts of a device, read off its metadata, reports and records one by one.

use super::device::Device;
use crate::json::Json;
use crate::platform_api::{
    DeviceCapability, DeviceCapabilityState, DeviceParameters, EnumOption, HttpDeviceInfo,
    HttpDeviceState,
};
use vstd::prelude::*;

verus! {

/// The entry at an index is of that instance, and no entry before it is.
pub open spec fn is_first_capability(info: HttpDeviceInfo, instance: Seq<char>, at: int) -> bool {
    &&& 0 <= at < info.capabilities@.len()
    &&& info.capabilities@[at].instance@ == instance
    &&& forall|j: int| 0 <= j < at ==> (#[trigger] info.capabilities@[j]).instance@ != instance
}

/// The report at an index is of that instance, and no report before it is.
pub open spec fn is_first_report(state: HttpDeviceState, instance: Seq<char>, at: int) -> bool {
    &&& 0 <= at < state.capabilities@.len()
    &&& state.capabilities@[at].instance@ == instance
    &&& forall|j: int| 0 <= j < at ==> (#[trigger] state.capabilities@[j]).instance@ != instance
}

/// A report is an object with that value under the name `value`.
pub open spec fn carries(report: DeviceCapabilityState, value: Json) -> bool {
    crate::json::json_content(report.state) matches Json::Object(members) && members.dom().contains(
        "value"@,
    ) && members["value"@] == value
}

/// The first report of that instance carries that value.
pub open spec fn state_tells(state: HttpDeviceState, instance: Seq<char>, value: Json) -> bool {
    exists|at: int| #[trigger]
        is_first_report(state, instance, at) && carries(state.capabilities@[at], value)
}

/// The first report of that instance carries that integer.
pub open spec fn state_tells_number(
    state: HttpDeviceState,
    instance: Seq<char>,
    number: int,
) -> bool {
    i64::MIN <= number <= i64::MAX && state_tells(state, instance, Json::Int(number))
}

/// The platform has reported that value of that instance.
pub open spec fn tells(device: Device, instance: Seq<char>, value: Json) -> bool {
    device.http_device_state matches Some(state) && state_tells(state, instance, value)
}

/// The platform has reported that integer of that instance.
pub open spec fn tells_number(device: Device, instance: Seq<char>, number: int) -> bool {
    device.http_device_state matches Some(state) && state_tells_number(state, instance, number)
}

/// The platform has reported no integer of that instance.
pub open spec fn tells_no_number(device: Device, instance: Seq<char>) -> bool {
    forall|number: int| !(#[trigger] tells_number(device, instance, number))
}

/// The choice at an index of an enumerated parameter.
pub open spec fn is_choice(cap: DeviceCapability, at: int, choice: EnumOption) -> bool {
    cap.parameters matches Some(DeviceParameters::Enum { options }) && 0 <= at < options@.len()
        && options@[at] == choice
}

/// The choice is the first that has that label.
pub open spec fn is_choice_of_label(
    cap: DeviceCapability,
    label: Seq<char>,
    choice: EnumOption,
) -> bool {
    choice.name@ == label && exists|at: int| #[trigger]
        is_choice(cap, at, choice) && forall|j: int, other: EnumOption|
            j < at && #[trigger] is_choice(cap, j, other) ==> other.name@ != label
}

/// The choice is the first that has that value.
pub open spec fn is_choice_of_value(
    cap: DeviceCapability,
    value: Json,
    choice: EnumOption,
) -> bool {
    crate::json::json_content(choice.value) == value && exists|at: int| #[trigger]
        is_choice(cap, at, choice) && forall|j: int, other: EnumOption|
            j < at && #[trigger] is_choice(cap, j, other) ==> crate::json::json_content(other.value)
                != value
}

/// A value stands for a choice of that label: it is not the empty text, and the first choice that
/// has it is labelled so.
pub open spec fn stands_for(cap: DeviceCapability, value: Json, label: Seq<char>) -> bool {
    value != Json::Str(seq![]) && exists|choice: EnumOption| #[trigger]
        is_choice_of_value(cap, value, choice) && choice.name@ == label
}

/// The capability that a device's metadata has under an instance is the first of that instance,
/// and there is none just when no entry of the metadata is of that instance.
pub proof fn law_capability_found(device: Device, instance: Seq<char>)
    ensures
        match device.capability(instance) {
            Some(cap) => device.http_device_info matches Some(info) && exists|at: int| #[trigger]
                is_first_capability(info, instance, at) && info.capabilities@[at] == cap,
            None => device.http_device_info matches Some(info) ==> forall|i: int|
                0 <= i < info.capabilities@.len() ==> (#[trigger] info.capabilities@[i]).instance@
                    != instance,
        },
        device.capability(instance) matches Some(cap) ==> cap.instance@ == instance,
{
    if let Some(info) = device.http_device_info {
        law_info_capability_found(info, instance);
    }
}

/// The capability that metadata has under an instance is the first of that instance, and there is
/// none just when no entry is of that instance.
pub proof fn law_info_capability_found(info: HttpDeviceInfo, instance: Seq<char>)
    ensures
        match info.capability_of(instance) {
            Some(cap) => exists|at: int| #[trigger]
                is_first_capability(info, instance, at) && info.capabilities@[at] == cap,
            None => forall|i: int|
                0 <= i < info.capabilities@.len() ==> (#[trigger] info.capabilities@[i]).instance@
                    != instance,
        },
{
    let wanted = crate::platform_api::is_of_instance(instance);
    crate::search::lemma_first_where(info.capabilities@, wanted);
    if let Some(cap) = info.capability_of(instance) {
        let at = choose|at: int|
            #![trigger info.capabilities@[at]]
            0 <= at < info.capabilities@.len() && info.capabilities@[at] == cap && wanted(cap)
                && forall|j: int| 0 <= j < at ==> !wanted(#[trigger] info.capabilities@[j]);
        assert(is_first_capability(info, instance, at));
    } else {
        assert forall|i: int| 0 <= i < info.capabilities@.len() implies (
        #[trigger] info.capabilities@[i]).instance@ != instance by {
            assert(!wanted(info.capabilities@[i]));
        }
    }
}

/// The report that the platform has of an instance is the first of that instance, and there is
/// none just when no report is of that instance.
pub proof fn law_state_report_found(state: HttpDeviceState, instance: Seq<char>)
    ensures
        match state.capability_of(instance) {
            Some(cap) => exists|at: int| #[trigger]
                is_first_report(state, instance, at) && state.capabilities@[at] == cap,
            None => forall|i: int|
                0 <= i < state.capabilities@.len() ==> (#[trigger] state.capabilities@[i]).instance@
                    != instance,
        },
{
    let wanted = crate::platform_api::reports_instance(instance);
    crate::search::lemma_first_where(state.capabilities@, wanted);
    if let Some(cap) = state.capability_of(instance) {
        let at = choose|at: int|
            #![trigger state.capabilities@[at]]
            0 <= at < state.capabilities@.len() && state.capabilities@[at] == cap && wanted(cap)
                && forall|j: int| 0 <= j < at ==> !wanted(#[trigger] state.capabilities@[j]);
        assert(is_first_report(state, instance, at));
    } else {
        assert forall|i: int| 0 <= i < state.capabilities@.len() implies (
        #[trigger] state.capabilities@[i]).instance@ != instance by {
            assert(!wanted(state.capabilities@[i]));
        }
    }
}

/// The device's report of an instance is the first of that instance in the latest platform state,
/// and there is none just when that state has none or has not come.
pub proof fn law_report_found(device: Device, instance: Seq<char>)
    ensures
        match device.state_capability(instance) {
            Some(cap) => device.http_device_state matches Some(state) && exists|at: int| #[trigger]
                is_first_report(state, instance, at) && state.capabilities@[at] == cap,
            None => device.http_device_state matches Some(state) ==> forall|i: int|
                0 <= i < state.capabilities@.len() ==> (#[trigger] state.capabilities@[i]).instance@
                    != instance,
        },
{
    if let Some(state) = device.http_device_state {
        law_state_report_found(state, instance);
    }
}

/// Of one instance there is one first report.
proof fn lemma_first_report_is_one(
    state: HttpDeviceState,
    instance: Seq<char>,
    first: int,
    second: int,
)
    requires
        is_first_report(state, instance, first),
        is_first_report(state, instance, second),
    ensures
        first == second,
{
    if first < second {
        assert(state.capabilities@[first].instance@ != instance);
    } else if second < first {
        assert(state.capabilities@[second].instance@ != instance);
    }
}

/// What a report holds is what stands under `value` in its object.
pub proof fn law_report_value(report: DeviceCapabilityState, value: Json)
    ensures
        report.reported() == Some(value) <==> carries(report, value),
{
}

/// The number of a platform state is the integer that its first report of the instance carries.
pub proof fn law_state_number(state: HttpDeviceState, instance: Seq<char>)
    ensures
        forall|number: i64|
            state.number_of(instance) == Some(number) <==> #[trigger] state_tells_number(
                state,
                instance,
                number as int,
            ),
        state.number_of(instance) is None <==> forall|number: int|
            !(#[trigger] state_tells_number(state, instance, number)),
{
    law_state_report_found(state, instance);
    assert forall|number: int| #[trigger] state_tells_number(state, instance, number) implies
        state.number_of(instance) == Some(number as i64) by {
        let at = choose|at: int| #[trigger]
            is_first_report(state, instance, at) && carries(
                state.capabilities@[at],
                Json::Int(number),
            );
        let cap = state.capability_of(instance)->0;
        let found = choose|at: int| #[trigger]
            is_first_report(state, instance, at) && state.capabilities@[at] == cap;
        assert(state.capabilities@[at].instance@ == instance);
        lemma_first_report_is_one(state, instance, at, found);
        law_report_value(cap, Json::Int(number));
    }
    if let Some(number) = state.number_of(instance) {
        let cap = state.capability_of(instance)->0;
        let at = choose|at: int| #[trigger]
            is_first_report(state, instance, at) && state.capabilities@[at] == cap;
        assert(carries(state.capabilities@[at], Json::Int(number as int)));
        assert(state_tells_number(state, instance, number as int));
    }
}

/// The value that a device has of an instance is the one that the first report of it carries.
pub proof fn law_platform_value(device: Device, instance: Seq<char>)
    ensures
        forall|value: Json|
            device.platform_value(instance) == Some(value) <==> #[trigger] tells(
                device,
                instance,
                value,
            ),
{
    law_report_found(device, instance);
    if let Some(state) = device.http_device_state {
        assert forall|value: Json| device.platform_value(instance) == Some(value)
            <==> #[trigger] tells(device, instance, value) by {
            if tells(device, instance, value) {
                let at = choose|at: int| #[trigger]
                    is_first_report(state, instance, at) && carries(state.capabilities@[at], value);
                assert(state.capabilities@[at].instance@ == instance);
                let cap = device.state_capability(instance)->0;
                let found = choose|at: int| #[trigger]
                    is_first_report(state, instance, at) && state.capabilities@[at] == cap;
                lemma_first_report_is_one(state, instance, at, found);
                law_report_value(cap, value);
            }
            if device.platform_value(instance) == Some(value) {
                let cap = device.state_capability(instance)->0;
                law_report_value(cap, value);
                let found = choose|at: int| #[trigger]
                    is_first_report(state, instance, at) && state.capabilities@[at] == cap;
                assert(carries(state.capabilities@[found], value));
            }
        }
    }
}

/// The number that a device has of an instance is the integer that the first report of it carries.
pub proof fn law_platform_number(device: Device, instance: Seq<char>)
    ensures
        forall|number: i64|
            device.platform_number(instance) == Some(number) <==> #[trigger] tells_number(
                device,
                instance,
                number as int,
            ),
        device.platform_number(instance) is None <==> tells_no_number(device, instance),
{
    if let Some(state) = device.http_device_state {
        law_state_number(state, instance);
        if tells_no_number(device, instance) {
            assert forall|number: int| !(#[trigger] state_tells_number(state, instance, number)) by {
                assert(!tells_number(device, instance, number));
            }
        }
    }
}

/// A report tells of power and brightness just when it carries an integer of one of them. The
/// power is on just for an integer other than zero; the brightness is the integer that the report
/// carries, or the nearest that fits.
pub proof fn law_power_and_brightness(state: HttpDeviceState)
    ensures
        state.power_and_brightness() is Some <==> exists|number: int|
            #![auto]
            state_tells_number(state, "powerSwitch"@, number) || state_tells_number(
                state,
                "brightness"@,
                number,
            ),
        state.power_and_brightness() matches Some(told) ==> {
            &&& told.on <==> exists|number: int|
                number != 0 && #[trigger] state_tells_number(state, "powerSwitch"@, number)
            &&& forall|number: int| #[trigger]
                state_tells_number(state, "brightness"@, number) ==> {
                    &&& 0 <= number <= 255 ==> told.brightness == number
                    &&& number < 0 ==> told.brightness == 0
                    &&& number > 255 ==> told.brightness == 255
                }
            &&& (forall|number: int|
                !(#[trigger] state_tells_number(state, "brightness"@, number)))
                ==> told.brightness == 0
        },
{
    law_state_number(state, "powerSwitch"@);
    law_state_number(state, "brightness"@);
    if let Some(number) = state.number_of("powerSwitch"@) {
        assert(state_tells_number(state, "powerSwitch"@, number as int));
        assert forall|other: int| #[trigger]
            state_tells_number(state, "powerSwitch"@, other) implies other == number by {
            assert(state_tells_number(state, "powerSwitch"@, (other as i64) as int));
        }
    }
    if let Some(number) = state.number_of("brightness"@) {
        assert(state_tells_number(state, "brightness"@, number as int));
        assert forall|other: int| #[trigger]
            state_tells_number(state, "brightness"@, other) implies other == number by {
            assert(state_tells_number(state, "brightness"@, (other as i64) as int));
        }
    }
}

/// The choices of a capability are those of its enumerated parameter, one for one.
pub proof fn law_options(cap: DeviceCapability)
    ensures
        forall|at: int, choice: EnumOption| #[trigger]
            is_choice(cap, at, choice) <==> 0 <= at < cap.options().len() && cap.options()[at]
                == choice,
        !(cap.parameters matches Some(DeviceParameters::Enum { options })) ==> cap.options().len()
            == 0,
{
}

/// What an instance map knows is what it holds.
pub proof fn law_known<V>(map: super::instance_map::InstanceMap<V>, instance: Seq<char>)
    ensures
        map@.dom().contains(instance) ==> map.known(instance) == Some(map@[instance]),
        !map@.dom().contains(instance) ==> map.known(instance) is None,
{
}

/// A device is shown by the name that the user gave it, and by its model until there is one.
pub proof fn law_shown_name(device: Device)
    ensures
        device.given_name matches Some(name) ==> device.shown_name() == name@,
        device.given_name is None ==> device.shown_name() == device.sku@,
{
}

/// The device is one of the two models of ceiling fan that report empty state.
pub open spec fn is_ceiling_fan(device: Device) -> bool {
    device.sku@ == "H1310"@ || device.sku@ == "H1370"@
}

/// No IoT notification has shown that toggle, and this bridge has not commanded it.
pub open spec fn is_untouched(device: Device, instance: Seq<char>) -> bool {
    !device.iot_toggles@.dom().contains(instance) && !device.toggle_states@.dom().contains(instance)
}

/// What the other facts of a polled ceiling fan imply of a toggle: of the main light, by the
/// device's brightness and power; of the fan, by a speed that was commanded, or else reported.
pub open spec fn implies_toggle(device: Device, instance: Seq<char>, on: bool) -> bool {
    &&& is_ceiling_fan(device)
    &&& device.platform_poll
    &&& {
        ||| instance == "mainLightToggle"@ && (device.merged_state matches Some(state) && on == (
        state.brightness > 0 || state.on))
        ||| instance == "fanToggle"@ && device.mode_labels@.dom().contains("fanSpeedMode"@) && on
        ||| instance == "fanToggle"@ && !device.mode_labels@.dom().contains("fanSpeedMode"@)
            && exists|speed: int| #[trigger]
            tells_number(device, "fanSpeedMode"@, speed) && on == (speed > 0)
    }
}

/// The platform's report of a mode stands for a choice of that label.
pub open spec fn report_shows(
    device: Device,
    cap: DeviceCapability,
    instance: Seq<char>,
    label: Seq<char>,
) -> bool {
    exists|value: Json| #[trigger] tells(device, instance, value) && stands_for(cap, value, label)
}

/// The fan speed seen over IoT stands for a choice of that label.
pub open spec fn iot_shows(
    device: Device,
    cap: DeviceCapability,
    instance: Seq<char>,
    label: Seq<char>,
) -> bool {
    &&& instance == "fanSpeedMode"@
    &&& device.iot_speed matches Some(speed) && stands_for(cap, Json::Int(speed as int), label)
}

/// A capability in front of a device's metadata is the one that is found under its own instance,
/// and changes nothing for any other instance. Empty metadata has none.
pub proof fn law_capability_in_front(
    info: HttpDeviceInfo,
    longer: HttpDeviceInfo,
    cap: DeviceCapability,
    instance: Seq<char>,
)
    requires
        longer.capabilities@ == seq![cap] + info.capabilities@,
    ensures
        cap.instance@ == instance ==> longer.capability_of(instance) == Some(cap),
        cap.instance@ != instance ==> longer.capability_of(instance) == info.capability_of(
            instance,
        ),
        info.capabilities@.len() == 0 ==> info.capability_of(instance) is None,
{
    assert(longer.capabilities@.skip(1) =~= info.capabilities@);
}

/// A report in front of a platform state is what counts of its own instance: its value is the one
/// under `value` in its object, and its number is that value where it is an integer that fits. It
/// changes nothing for any other instance. An empty platform state tells nothing.
pub proof fn law_report_in_front(
    state: HttpDeviceState,
    longer: HttpDeviceState,
    cap: DeviceCapabilityState,
    instance: Seq<char>,
)
    requires
        longer.capabilities@ == seq![cap] + state.capabilities@,
    ensures
        cap.instance@ == instance ==> {
            &&& longer.capability_of(instance) == Some(cap)
            &&& crate::json::json_content(cap.state) matches Json::Object(members) ==> {
                &&& !members.dom().contains("value"@) ==> longer.number_of(instance) is None
                &&& members.dom().contains("value"@) ==> match members["value"@] {
                    Json::Int(number) => if i64::MIN <= number <= i64::MAX {
                        longer.number_of(instance) == Some(number as i64)
                    } else {
                        longer.number_of(instance) is None
                    },
                    _ => longer.number_of(instance) is None,
                }
            }
            &&& !(crate::json::json_content(cap.state) is Object) ==> longer.number_of(
                instance,
            ) is None
        },
        cap.instance@ != instance ==> {
            &&& longer.capability_of(instance) == state.capability_of(instance)
            &&& longer.number_of(instance) == state.number_of(instance)
        },
        state.capabilities@.len() == 0 ==> {
            &&& state.capability_of(instance) is None
            &&& state.number_of(instance) is None
        },
{
    assert(longer.capabilities@.skip(1) =~= state.capabilities@);
}

/// What a device has of the platform is what its metadata and its platform state have, and
/// nothing before they have come.
pub proof fn law_device_reads_platform(device: Device, instance: Seq<char>)
    ensures
        device.http_device_info matches Some(info) ==> device.capability(instance)
            == info.capability_of(instance),
        device.http_device_info is None ==> device.capability(instance) is None,
        device.http_device_state matches Some(state) ==> {
            &&& device.state_capability(instance) == state.capability_of(instance)
            &&& device.platform_number(instance) == state.number_of(instance)
            &&& state.capability_of(instance) matches Some(cap) ==> device.platform_value(instance)
                == cap.reported()
            &&& state.capability_of(instance) is None ==> device.platform_value(instance) is None
        },
        device.http_device_state is None ==> {
            &&& device.state_capability(instance) is None
            &&& device.platform_number(instance) is None
            &&& device.platform_value(instance) is None
        },
{
}

/// A report's value is what stands under `value` in its object, and nothing else is.
pub proof fn law_reported_member(report: DeviceCapabilityState)
    ensures
        crate::json::json_content(report.state) matches Json::Object(members) ==> {
            &&& members.dom().contains("value"@) ==> report.reported() == Some(members["value"@])
            &&& !members.dom().contains("value"@) ==> report.reported() is None
        },
        !(crate::json::json_content(report.state) is Object) ==> report.reported() is None,
{
}

} // verus!
