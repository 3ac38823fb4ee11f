//! What holds of switches whatever a device reports.

use super::switch::{CapabilitySwitch, SwitchConfig};
use crate::json::Json;
use crate::platform_api::HttpDeviceState;
use crate::service::device::{Device, DeviceState};
use crate::service::instance_map::InstanceMap;
use vstd::prelude::*;

verus! {

/// A number that the platform reports decides a toggle, whatever the other sources say.
pub proof fn law_platform_number_decides(device: Device, instance: Seq<char>, number: i64)
    requires
        device.platform_number(instance) == Some(number),
    ensures
        super::switch::toggle_state(device, instance) == Some(number != 0),
{
}

/// Where the platform reports no number, the IoT notifications outrank whatever this bridge last
/// commanded, whatever the model.
pub proof fn law_iot_outranks_commands(
    device: Device,
    instance: Seq<char>,
    on: bool,
    commanded: InstanceMap<bool>,
)
    requires
        device.platform_number(instance) is None,
        device.iot_toggles.known(instance) == Some(on),
    ensures
        super::switch::toggle_state(Device { toggle_states: commanded, ..device }, instance)
            == Some(on),
{
    let other = Device { toggle_states: commanded, ..device };
    assert(other.platform_number(instance) == device.platform_number(instance));
}

/// A command to a toggle shows at once, unless the platform reports a number or the IoT
/// notifications show a state. It shows on no other toggle.
pub proof fn law_command_shows(before: Device, after: Device, instance: Seq<char>, on: bool)
    requires
        after.toggle_states@ == before.toggle_states@.insert(instance, on),
        after == (Device { toggle_states: after.toggle_states, ..before }),
    ensures
        before.platform_number(instance) is None && before.iot_toggles.known(instance) is None
            ==> super::switch::toggle_state(after, instance) == Some(on),
        forall|other: Seq<char>|
            other != instance ==> #[trigger] super::switch::toggle_state(after, other)
                == super::switch::toggle_state(before, other),
{
    assert(forall|other: Seq<char>| #[trigger]
        after.platform_number(other) == before.platform_number(other));
    assert forall|other: Seq<char>|
        other != instance implies #[trigger] super::switch::toggle_state(after, other)
        == super::switch::toggle_state(before, other) by {
        assert(after.toggle_states.known(other) == before.toggle_states.known(other));
        assert(after.platform_number("fanSpeedMode"@) == before.platform_number("fanSpeedMode"@));
    }
}

/// A toggle of a device with the empty state quirk always has a definite state, so that Home
/// Assistant is told one.
pub proof fn law_quirk_device_is_definite(device: Device, instance: Seq<char>)
    requires
        super::switch::has_empty_state_quirk(device),
    ensures
        super::switch::toggle_state(device, instance) is Some,
        instance != "powerSwitch"@ ==> super::switch::switch_state(device, instance) is Some,
{
}

/// Before anything is known of a device with the empty state quirk, each of its toggles is OFF.
pub proof fn law_quirk_device_starts_off(device: Device, instance: Seq<char>)
    requires
        super::switch::has_empty_state_quirk(device),
        device.http_device_state is None,
        device.merged_state is None,
        device.iot_toggles@ == Map::<Seq<char>, bool>::empty(),
        device.toggle_states@ == Map::<Seq<char>, bool>::empty(),
        device.mode_labels@ == Map::<Seq<char>, String>::empty(),
    ensures
        super::switch::toggle_state(device, instance) == Some(false),
{
}

/// Where the platform reports the empty text of a toggle and no other source knows its state, the
/// toggle is OFF on a device with the empty state quirk, and unknown on any other.
pub proof fn law_empty_report(device: Device, instance: Seq<char>)
    requires
        device.platform_value(instance) == Some(Json::Str(seq![])),
        device.iot_toggles.known(instance) is None,
        device.toggle_states.known(instance) is None,
        super::switch::inferred_state(device, instance) is None,
    ensures
        super::switch::toggle_state(device, instance) == (
        if super::switch::has_empty_state_quirk(device) {
            Some(false)
        } else {
            None
        }),
{
}

/// A device without the empty state quirk keeps to what was reported or commanded: its toggle is
/// unknown just when the platform reports no number, the IoT notifications show nothing and
/// nothing was commanded.
pub proof fn law_other_device_stays_unknown(device: Device, instance: Seq<char>)
    requires
        !super::switch::has_empty_state_quirk(device),
    ensures
        super::switch::inferred_state(device, instance) is None,
        super::switch::toggle_state(device, instance) is None <==> {
            &&& device.platform_number(instance) is None
            &&& device.iot_toggles.known(instance) is None
            &&& device.toggle_states.known(instance) is None
        },
{
}

/// Only the fan and the main light of a polled device with the empty state quirk are inferred.
pub proof fn law_inference_scope(device: Device, instance: Seq<char>)
    ensures
        super::switch::inferred_state(device, instance) is Some ==> {
            &&& super::switch::has_empty_state_quirk(device)
            &&& device.platform_poll
            &&& instance == "mainLightToggle"@ || instance == "fanToggle"@
        },
{
}

/// A polled fan with the empty state quirk is inferred to run once a speed was commanded, and else
/// from the speed that the platform reports, if that is a number.
pub proof fn law_fan_follows_speed(device: Device)
    requires
        super::switch::has_empty_state_quirk(device),
        device.platform_poll,
    ensures
        device.mode_labels.known("fanSpeedMode"@) is Some ==> super::switch::inferred_state(
            device,
            "fanToggle"@,
        ) == Some(true),
        device.mode_labels.known("fanSpeedMode"@) is None ==> super::switch::inferred_state(
            device,
            "fanToggle"@,
        ) == (match device.platform_number("fanSpeedMode"@) {
            Some(speed) => Some(speed > 0),
            None => None,
        }),
{
    reveal_strlit("fanToggle");
    reveal_strlit("mainLightToggle");
    assert("fanToggle"@.len() != "mainLightToggle"@.len());
}

/// A commanded speed turns the fan's own toggle ON, on a polled device with the empty state quirk,
/// unless a better source tells the toggle's state.
pub proof fn law_commanded_speed_shows_on_fan(before: Device, after: Device, label: String)
    requires
        after.mode_labels@ == before.mode_labels@.insert("fanSpeedMode"@, label),
        after == (Device { mode_labels: after.mode_labels, ..before }),
        super::switch::has_empty_state_quirk(before),
        before.platform_poll,
        before.platform_number("fanToggle"@) is None,
        before.iot_toggles.known("fanToggle"@) is None,
        before.toggle_states.known("fanToggle"@) is None,
    ensures
        super::switch::toggle_state(after, "fanToggle"@) == Some(true),
{
    law_fan_follows_speed(after);
    assert(after.platform_number("fanToggle"@) == before.platform_number("fanToggle"@));
}

/// The main light of a polled device with the empty state quirk is inferred to be on when the
/// device shines or is powered on, and to be off when it is neither.
pub proof fn law_main_light_follows_state(device: Device, state: DeviceState)
    requires
        super::switch::has_empty_state_quirk(device),
        device.platform_poll,
        device.merged_state == Some(state),
    ensures
        super::switch::inferred_state(device, "mainLightToggle"@) == Some(
            state.brightness > 0 || state.on,
        ),
{
}

/// A platform report alone tells the main light of a polled device with the empty state quirk: it
/// is inferred to be on when the report gives a brightness above zero or a power other than zero,
/// and to be off when it gives a number of either and neither is so.
pub proof fn law_report_tells_main_light(before: Device, after: Device, report: HttpDeviceState)
    requires
        super::switch::has_empty_state_quirk(before),
        before.platform_poll,
        report.number_of("brightness"@) is Some || report.number_of("powerSwitch"@) is Some,
        after == (Device {
            http_device_state: Some(report),
            merged_state: match report.power_and_brightness() {
                Some(told) => Some(told),
                None => before.merged_state,
            },
            ..before
        }),
    ensures
        super::switch::inferred_state(after, "mainLightToggle"@) == Some(
            (report.number_of("brightness"@) matches Some(brightness) && brightness > 0) || (
            report.number_of("powerSwitch"@) matches Some(power) && power != 0),
        ),
{
}

/// A report is called unhandled only where the toggle is OFF by default.
pub proof fn law_unhandled_is_off(device: Device, instance: Seq<char>)
    requires
        super::switch::is_unhandled(device, instance),
    ensures
        super::switch::toggle_state(device, instance) == Some(false),
{
}

/// The power switch shows the device's power and nothing else.
pub proof fn law_power_switch_shows_power(device: Device)
    ensures
        super::switch::switch_state(device, "powerSwitch"@) == (match device.merged_state {
            Some(state) => Some(state.on),
            None => None,
        }),
{
}

/// The two payloads differ, so that a message tells the state.
pub proof fn law_payload_tells_state(first: bool, second: bool)
    requires
        super::switch::toggle_payload(first) == super::switch::toggle_payload(second),
    ensures
        first == second,
{
    reveal_strlit("ON");
    reveal_strlit("OFF");
    assert("ON"@.len() != "OFF"@.len());
}

/// A switch never takes commands on the topic on which it reports.
pub proof fn law_switch_topics_differ(config: SwitchConfig, device: Device, instance: Seq<char>)
    requires
        config.is_switch_of(device, instance),
    ensures
        config.command_topic@ != config.state_topic@,
{
    reveal_strlit("/command/");
    reveal_strlit("/");
    reveal_strlit("/state");
    assert(config.command_topic@.len() == config.state_topic@.len() + 2);
}

/// The switches of two instances of one device share no topic of a kind and no id.
pub proof fn law_switches_are_distinct(
    first: CapabilitySwitch,
    second: CapabilitySwitch,
    device: Device,
    instance: Seq<char>,
    other: Seq<char>,
)
    requires
        first.switch.is_switch_of(device, instance),
        second.switch.is_switch_of(device, other),
        instance != other,
    ensures
        first.switch.command_topic@ != second.switch.command_topic@,
        first.switch.state_topic@ != second.switch.state_topic@,
        first.switch.base.unique_id@ != second.switch.base.unique_id@,
{
    let id = crate::service::hass::device_topic_id(device);
    let command = "gv2mqtt/switch/"@ + id + "/command/"@;
    let unique = "gv2mqtt-"@ + id + "-"@;
    let state = "gv2mqtt/switch/"@ + id + "/"@;
    let end = "/state"@;
    lemma_prefix_cancels(command, instance, other);
    lemma_prefix_cancels(unique, instance, other);
    assert(state + instance != state + other) by {
        lemma_prefix_cancels(state, instance, other);
    }
    assert(state + instance + end != state + other + end) by {
        lemma_suffix_cancels(state + instance, state + other, end);
    }
}

pub(crate) proof fn lemma_prefix_cancels(prefix: Seq<char>, first: Seq<char>, second: Seq<char>)
    ensures
        prefix + first == prefix + second ==> first == second,
{
    assert((prefix + first).skip(prefix.len() as int) =~= first);
    assert((prefix + second).skip(prefix.len() as int) =~= second);
}

pub(crate) proof fn lemma_suffix_cancels(first: Seq<char>, second: Seq<char>, suffix: Seq<char>)
    ensures
        first + suffix == second + suffix ==> first == second,
{
    if first + suffix == second + suffix {
        assert((first + suffix).len() == (second + suffix).len());
        assert((first + suffix).take(first.len() as int) =~= first);
        assert((second + suffix).take(second.len() as int) =~= second);
    }
}

/// The models that take the OFF default are the two ceiling fans, and no other.
pub proof fn law_quirk_is_of_two_models(device: Device)
    ensures
        super::switch::has_empty_state_quirk(device) <==> device.sku@ == "H1310"@ || device.sku@
            == "H1370"@,
{
}

/// A toggle is inferred just as the other facts of the device imply it.
pub proof fn law_inferred_as_implied(device: Device, instance: Seq<char>, on: bool)
    ensures
        super::switch::inferred_state(device, instance) == Some(on)
            <==> crate::service::facts::implies_toggle(device, instance, on),
{
    reveal_strlit("fanToggle");
    reveal_strlit("mainLightToggle");
    assert("fanToggle"@.len() != "mainLightToggle"@.len());
    law_quirk_is_of_two_models(device);
    crate::service::facts::law_platform_number(device, "fanSpeedMode"@);
    if let Some(speed) = device.platform_number("fanSpeedMode"@) {
        assert(crate::service::facts::tells_number(device, "fanSpeedMode"@, speed as int));
        assert forall|other: int| #[trigger]
            crate::service::facts::tells_number(device, "fanSpeedMode"@, other) implies other
            == speed by {
            assert(crate::service::facts::tells_number(
                device,
                "fanSpeedMode"@,
                (other as i64) as int,
            ));
        }
    }
}

/// An integer in the platform's report of a toggle is what is resolved and what its switch shows:
/// ON just when it is not zero, whatever the model and whatever else is known.
pub proof fn law_reported_integer_is_shown(device: Device, instance: Seq<char>, number: int)
    requires
        crate::service::facts::tells_number(device, instance, number),
    ensures
        super::switch::toggle_state(device, instance) == Some(number != 0),
        instance != "powerSwitch"@ ==> super::switch::switch_state(device, instance) == Some(
            number != 0,
        ),
{
    crate::service::facts::law_platform_number(device, instance);
    assert(crate::service::facts::tells_number(device, instance, (number as i64) as int));
}

/// Without such an integer, what an IoT notification showed of a toggle is what is resolved and
/// what its switch shows, whatever was commanded.
pub proof fn law_iot_state_is_shown(device: Device, instance: Seq<char>)
    requires
        crate::service::facts::tells_no_number(device, instance),
        device.iot_toggles@.dom().contains(instance),
    ensures
        super::switch::toggle_state(device, instance) == Some(device.iot_toggles@[instance]),
        instance != "powerSwitch"@ ==> super::switch::switch_state(device, instance) == Some(
            device.iot_toggles@[instance],
        ),
{
    crate::service::facts::law_platform_number(device, instance);
}

/// Without either, the last command to a toggle is what is resolved and what its switch shows.
pub proof fn law_command_is_shown(device: Device, instance: Seq<char>)
    requires
        crate::service::facts::tells_no_number(device, instance),
        !device.iot_toggles@.dom().contains(instance),
        device.toggle_states@.dom().contains(instance),
    ensures
        super::switch::toggle_state(device, instance) == Some(device.toggle_states@[instance]),
        instance != "powerSwitch"@ ==> super::switch::switch_state(device, instance) == Some(
            device.toggle_states@[instance],
        ),
{
    crate::service::facts::law_platform_number(device, instance);
}

/// Without any of these, what the other facts of the device imply of a toggle is what is resolved
/// and what its switch shows, for the main light as for the fan.
pub proof fn law_implied_state_is_shown(device: Device, instance: Seq<char>, on: bool)
    requires
        crate::service::facts::tells_no_number(device, instance),
        crate::service::facts::is_untouched(device, instance),
        crate::service::facts::implies_toggle(device, instance, on),
    ensures
        super::switch::toggle_state(device, instance) == Some(on),
        instance != "powerSwitch"@ ==> super::switch::switch_state(device, instance) == Some(on),
{
    crate::service::facts::law_platform_number(device, instance);
    law_inferred_as_implied(device, instance, on);
}

/// Of a polled ceiling fan whose main light the platform does not number, and which no
/// notification or command touched, the main light is resolved by brightness and power.
pub proof fn law_main_light_is_resolved(device: Device, state: DeviceState)
    requires
        device.sku@ == "H1310"@ || device.sku@ == "H1370"@,
        device.platform_poll,
        crate::service::facts::tells_no_number(device, "mainLightToggle"@),
        crate::service::facts::is_untouched(device, "mainLightToggle"@),
        device.merged_state == Some(state),
    ensures
        super::switch::toggle_state(device, "mainLightToggle"@) == Some(
            state.brightness > 0 || state.on,
        ),
{
    law_implied_state_is_shown(device, "mainLightToggle"@, state.brightness > 0 || state.on);
}

/// Where nothing is reported, shown, commanded or implied of a toggle, it is OFF on the two models
/// of ceiling fan, and unknown on any other: nothing is shown.
pub proof fn law_nothing_known(device: Device, instance: Seq<char>)
    requires
        crate::service::facts::tells_no_number(device, instance),
        crate::service::facts::is_untouched(device, instance),
        forall|on: bool| !(#[trigger] crate::service::facts::implies_toggle(device, instance, on)),
    ensures
        device.sku@ == "H1310"@ || device.sku@ == "H1370"@ ==> {
            &&& super::switch::toggle_state(device, instance) == Some(false)
            &&& instance != "powerSwitch"@ ==> super::switch::switch_state(device, instance)
                == Some(false)
        },
        device.sku@ != "H1310"@ && device.sku@ != "H1370"@ ==> {
            &&& super::switch::toggle_state(device, instance) is None
            &&& instance != "powerSwitch"@ ==> super::switch::switch_state(device, instance) is None
        },
{
    crate::service::facts::law_platform_number(device, instance);
    if let Some(on) = super::switch::inferred_state(device, instance) {
        law_inferred_as_implied(device, instance, on);
        assert(crate::service::facts::implies_toggle(device, instance, on));
    }
}

/// A report is worth a warning just where a ceiling fan's toggle has a report, no source tells its
/// state, and the report does not carry the empty text.
pub proof fn law_unhandled_reports(device: Device, instance: Seq<char>)
    ensures
        super::switch::is_unhandled(device, instance) <==> {
            &&& device.sku@ == "H1310"@ || device.sku@ == "H1370"@
            &&& crate::service::facts::tells_no_number(device, instance)
            &&& crate::service::facts::is_untouched(device, instance)
            &&& forall|on: bool|
                !(#[trigger] crate::service::facts::implies_toggle(device, instance, on))
            &&& device.http_device_state matches Some(state) && exists|at: int| #[trigger]
                crate::service::facts::is_first_report(state, instance, at)
            &&& !crate::service::facts::tells(device, instance, Json::Str(seq![]))
        },
{
    crate::service::facts::law_platform_number(device, instance);
    crate::service::facts::law_platform_value(device, instance);
    crate::service::facts::law_report_found(device, instance);
    law_inferred_as_implied(device, instance, true);
    law_inferred_as_implied(device, instance, false);
    if let Some(state) = device.http_device_state {
        if exists|at: int| #[trigger]
            crate::service::facts::is_first_report(state, instance, at) {
            let at = choose|at: int| #[trigger]
                crate::service::facts::is_first_report(state, instance, at);
            assert(state.capabilities@[at].instance@ == instance);
        }
    }
    if super::switch::is_unhandled(device, instance) {
        assert forall|on: bool|
            !(#[trigger] crate::service::facts::implies_toggle(device, instance, on)) by {
            law_inferred_as_implied(device, instance, on);
        }
    } else if super::switch::inferred_state(device, instance) is Some {
        let on = super::switch::inferred_state(device, instance)->0;
        law_inferred_as_implied(device, instance, on);
        assert(crate::service::facts::implies_toggle(device, instance, on));
    }
}

/// A switch that is on sends `ON`, and one that is off sends `OFF`.
pub proof fn law_payload_texts(on: bool)
    ensures
        on ==> super::switch::toggle_payload(on) == "ON"@,
        !on ==> super::switch::toggle_payload(on) == "OFF"@,
{
}

/// A switch takes commands and reports on topics that are made of the device's topic id and of the
/// instance, and is an entity of that device, named by the words of the instance.
pub proof fn law_switch_config(config: SwitchConfig, device: Device, instance: Seq<char>)
    requires
        config.is_switch_of(device, instance),
    ensures
        config.command_topic@ == "gv2mqtt/switch/"@ + crate::service::hass::device_topic_id(device)
            + "/command/"@ + instance,
        config.state_topic@ == "gv2mqtt/switch/"@ + crate::service::hass::device_topic_id(device)
            + "/"@ + instance + "/state"@,
        config.base.is_plain_entity(
            device,
            crate::service::hass::spaced_words(instance),
            instance,
        ),
{
}

/// The switches of one instance on two devices of different topic ids share no topic of a kind and
/// no id.
pub proof fn law_switches_of_two_devices(
    first: SwitchConfig,
    second: SwitchConfig,
    device: Device,
    other: Device,
    instance: Seq<char>,
)
    requires
        first.is_switch_of(device, instance),
        second.is_switch_of(other, instance),
        crate::service::hass::device_topic_id(device) != crate::service::hass::device_topic_id(
            other,
        ),
    ensures
        first.command_topic@ != second.command_topic@,
        first.state_topic@ != second.state_topic@,
        first.base.unique_id@ != second.base.unique_id@,
{
    let a = crate::service::hass::device_topic_id(device);
    let b = crate::service::hass::device_topic_id(other);
    let start = "gv2mqtt/switch/"@;
    lemma_prefix_cancels(start, a, b);
    lemma_suffix_cancels(start + a + "/command/"@, start + b + "/command/"@, instance);
    lemma_suffix_cancels(start + a, start + b, "/command/"@);
    lemma_suffix_cancels(start + a + "/"@ + instance, start + b + "/"@ + instance, "/state"@);
    lemma_suffix_cancels(start + a + "/"@, start + b + "/"@, instance);
    lemma_suffix_cancels(start + a, start + b, "/"@);
    lemma_prefix_cancels("gv2mqtt-"@, a, b);
    lemma_suffix_cancels("gv2mqtt-"@ + a + "-"@, "gv2mqtt-"@ + b + "-"@, instance);
    lemma_suffix_cancels("gv2mqtt-"@ + a, "gv2mqtt-"@ + b, "-"@);
}

/// Where the platform reports no number of a toggle, the IoT notifications show nothing and nothing
/// was commanded, the resolved state is the inferred one whenever there is one, for every instance.
/// Where there is none, it is OFF on the two models of ceiling fan, and unknown on any other.
pub proof fn law_inferred_state_is_resolved(device: Device, instance: Seq<char>)
    requires
        device.platform_number(instance) is None,
        device.iot_toggles.known(instance) is None,
        device.toggle_states.known(instance) is None,
    ensures
        super::switch::inferred_state(device, instance) matches Some(on)
            ==> super::switch::toggle_state(device, instance) == Some(on),
        super::switch::inferred_state(device, instance) is None && (device.sku@ == "H1310"@
            || device.sku@ == "H1370"@) ==> super::switch::toggle_state(device, instance) == Some(
            false,
        ),
        super::switch::inferred_state(device, instance) is None && device.sku@ != "H1310"@
            && device.sku@ != "H1370"@ ==> super::switch::toggle_state(device, instance) is None,
{
}

/// Nothing is inferred on another model, nor where the device need not be polled, nor of any toggle
/// but the main light and the fan, nor of the main light before anything told of the device.
pub proof fn law_nothing_inferred(device: Device, instance: Seq<char>)
    ensures
        device.sku@ != "H1310"@ && device.sku@ != "H1370"@ ==> super::switch::inferred_state(
            device,
            instance,
        ) is None,
        !device.platform_poll ==> super::switch::inferred_state(device, instance) is None,
        instance != "mainLightToggle"@ && instance != "fanToggle"@
            ==> super::switch::inferred_state(device, instance) is None,
        instance == "mainLightToggle"@ && device.merged_state is None
            ==> super::switch::inferred_state(device, instance) is None,
{
}

/// A switch of any instance but the power shows the resolved state of that toggle.
pub proof fn law_switch_shows_toggle(device: Device, instance: Seq<char>)
    requires
        instance != "powerSwitch"@,
    ensures
        super::switch::switch_state(device, instance) == super::switch::toggle_state(
            device,
            instance,
        ),
{
}

} // verus!
