//! What holds of mode selects whatever a capability offers.

use super::capability_mode::{CapabilityModeSelect, ModeError};
use crate::json::Json;
use crate::platform_api::{DeviceCapability, DeviceParameters, EnumOption};
use crate::service::device::Device;
use vstd::prelude::*;

verus! {

/// Whether the choice at an index is the first of its label.
pub open spec fn is_first_of_label(cap: DeviceCapability, at: int) -> bool {
    &&& 0 <= at < cap.options().len()
    &&& forall|j: int|
        0 <= j < at ==> (#[trigger] cap.options()[j]).name@ != cap.options()[at].name@
}

/// Whether the choice at an index is the first of its value.
pub open spec fn is_first_of_value(cap: DeviceCapability, at: int) -> bool {
    &&& 0 <= at < cap.options().len()
    &&& forall|j: int|
        0 <= j < at ==> crate::json::json_content((#[trigger] cap.options()[j]).value)
            != crate::json::json_content(cap.options()[at].value)
}

/// A choice that is the first of its label is the one that its label selects.
proof fn lemma_label_selects(cap: DeviceCapability, at: int)
    requires
        0 <= at < cap.options().len(),
    ensures
        is_first_of_label(cap, at) ==> super::capability_mode::labelled_option(
            cap,
            cap.options()[at].name@,
        ) == Some(cap.options()[at]),
        !is_first_of_label(cap, at) ==> exists|j: int|
            0 <= j < at && super::capability_mode::labelled_option(cap, cap.options()[at].name@)
                == Some(#[trigger] cap.options()[j]),
{
    let label = cap.options()[at].name@;
    let wanted = super::capability_mode::has_label(label);
    crate::search::lemma_first_where(cap.options(), wanted);
    assert(wanted(cap.options()[at]));
}

/// A choice that is the first of its value is the one that its value selects.
proof fn lemma_value_selects(cap: DeviceCapability, at: int)
    requires
        0 <= at < cap.options().len(),
    ensures
        is_first_of_value(cap, at) ==> super::capability_mode::valued_option(
            cap,
            crate::json::json_content(cap.options()[at].value),
        ) == Some(cap.options()[at]),
        !is_first_of_value(cap, at) ==> exists|j: int|
            0 <= j < at && super::capability_mode::valued_option(
                cap,
                crate::json::json_content(cap.options()[at].value),
            ) == Some(#[trigger] cap.options()[j]),
{
    let value = crate::json::json_content(cap.options()[at].value);
    let wanted = super::capability_mode::has_value(value);
    crate::search::lemma_first_where(cap.options(), wanted);
    assert(wanted(cap.options()[at]));
}

/// From a label to its value and back: the choice at `at`, the first of its label, comes back from
/// its value just when that value is not the empty text and no choice before it has the value.
pub proof fn law_label_roundtrip(cap: DeviceCapability, at: int)
    requires
        is_first_of_label(cap, at),
    ensures
        super::capability_mode::value_for_label(cap, cap.options()[at].name@) == Some(
            crate::json::json_content(cap.options()[at].value),
        ),
        super::capability_mode::label_for_value(
            cap,
            crate::json::json_content(cap.options()[at].value),
        ) == Some(cap.options()[at].name@) <==> {
            &&& crate::json::json_content(cap.options()[at].value) != Json::Str(seq![])
            &&& is_first_of_value(cap, at)
        },
{
    lemma_label_selects(cap, at);
    lemma_value_selects(cap, at);
}

/// From a value to its label and back: the choice at `at`, the first of its value, comes back from
/// its label just when no choice before it has the label.
pub proof fn law_value_roundtrip(cap: DeviceCapability, at: int)
    requires
        is_first_of_value(cap, at),
        crate::json::json_content(cap.options()[at].value) != Json::Str(seq![]),
    ensures
        super::capability_mode::label_for_value(
            cap,
            crate::json::json_content(cap.options()[at].value),
        ) == Some(cap.options()[at].name@),
        super::capability_mode::value_for_label(cap, cap.options()[at].name@) == Some(
            crate::json::json_content(cap.options()[at].value),
        ) <==> is_first_of_label(cap, at),
{
    lemma_value_selects(cap, at);
    lemma_label_selects(cap, at);
}

/// A label can be commanded just when the select offers it.
pub proof fn law_offered_labels_have_values(cap: DeviceCapability, label: Seq<char>)
    ensures
        super::capability_mode::value_for_label(cap, label) is Some
            <==> super::capability_mode::option_labels(cap).contains(label),
{
    let wanted = super::capability_mode::has_label(label);
    let labels = super::capability_mode::option_labels(cap);
    crate::search::lemma_first_where(cap.options(), wanted);
    assert(forall|i: int| 0 <= i < cap.options().len() ==> labels[i] == cap.options()[i].name@);
    if super::capability_mode::value_for_label(cap, label) is Some {
        let i = choose|i: int|
            0 <= i < cap.options().len() && wanted(#[trigger] cap.options()[i]);
        assert(labels[i] == label);
    }
    if labels.contains(label) {
        let i = choose|i: int| 0 <= i < labels.len() && labels[i] == label;
        assert(wanted(cap.options()[i]));
    }
}

/// What is shown for a reported value is a label that the select offers.
pub proof fn law_reported_label_is_offered(cap: DeviceCapability, value: Json)
    ensures
        super::capability_mode::label_for_value(cap, value) matches Some(label)
            ==> super::capability_mode::option_labels(cap).contains(label),
{
    let wanted = super::capability_mode::has_value(value);
    let labels = super::capability_mode::option_labels(cap);
    crate::search::lemma_first_where(cap.options(), wanted);
    if let Some(option) = super::capability_mode::valued_option(cap, value) {
        let i = choose|i: int|
            0 <= i < cap.options().len() && #[trigger] cap.options()[i] == option;
        assert(labels[i] == option.name@);
    }
}

/// The empty text has no label, even where it is the value of a choice.
pub proof fn law_empty_text_has_no_label(cap: DeviceCapability)
    ensures
        super::capability_mode::label_for_value(cap, Json::Str(seq![])) is None,
{
}

/// A choice that the platform reports is shown, whatever the other sources say.
pub proof fn law_platform_label_decides(
    device: Device,
    cap: DeviceCapability,
    instance: Seq<char>,
    value: Json,
    label: Seq<char>,
)
    requires
        device.platform_value(instance) == Some(value),
        super::capability_mode::label_for_value(cap, value) == Some(label),
    ensures
        super::capability_mode::mode_label(device, cap, instance) == Some(label),
{
}

/// Where the platform reports no choice of the fan's speed, a speed seen over IoT outranks
/// whatever this bridge last commanded.
pub proof fn law_iot_speed_outranks_commands(
    device: Device,
    cap: DeviceCapability,
    speed: u8,
    label: Seq<char>,
)
    requires
        super::capability_mode::platform_label(device, cap, "fanSpeedMode"@) is None,
        device.iot_speed == Some(speed),
        super::capability_mode::label_for_value(cap, Json::Int(speed as int)) == Some(label),
    ensures
        super::capability_mode::mode_label(device, cap, "fanSpeedMode"@) == Some(label),
{
}

/// The speed seen over IoT has no bearing on any mode but the fan's speed.
pub proof fn law_iot_speed_scope(
    device: Device,
    cap: DeviceCapability,
    instance: Seq<char>,
    speed: Option<u8>,
)
    requires
        instance != "fanSpeedMode"@,
    ensures
        super::capability_mode::mode_label(Device { iot_speed: speed, ..device }, cap, instance)
            == super::capability_mode::mode_label(device, cap, instance),
{
    let other = Device { iot_speed: speed, ..device };
    assert(other.platform_value(instance) == device.platform_value(instance));
}

/// A commanded label shows at once, unless the platform or the IoT notifications tell the choice.
pub proof fn law_commanded_label_shows(
    before: Device,
    after: Device,
    cap: DeviceCapability,
    instance: Seq<char>,
    label: String,
)
    requires
        after.mode_labels@ == before.mode_labels@.insert(instance, label),
        after == (Device { mode_labels: after.mode_labels, ..before }),
        super::capability_mode::platform_label(before, cap, instance) is None,
        super::capability_mode::iot_label(before, cap, instance) is None,
    ensures
        super::capability_mode::mode_label(after, cap, instance) == Some(label@),
{
    assert(after.platform_value(instance) == before.platform_value(instance));
}

/// A select never takes commands on the topic on which it reports.
pub proof fn law_select_topics_differ(
    select: CapabilityModeSelect,
    device: Device,
    cap: DeviceCapability,
)
    requires
        select.is_select_of(device, cap),
    ensures
        select.select.command_topic@ != select.select.state_topic@,
{
    reveal_strlit("/command/");
    reveal_strlit("/state/");
    assert(select.select.command_topic@.len() == select.select.state_topic@.len() + 2);
}

/// A name that is not the fan speed's is shown as its words; the fan speed has a name of its own.
pub proof fn law_display_name(instance: Seq<char>)
    ensures
        instance == "fanSpeedMode"@ ==> super::capability_mode::mode_display_name(instance)
            == "Fan Speed"@,
        instance != "fanSpeedMode"@ ==> super::capability_mode::mode_display_name(instance)
            == crate::service::hass::spaced_words(instance),
{
}

/// The labels of a capability are the names of its choices, each at its place, and no others.
pub proof fn law_labels_of_choices(cap: DeviceCapability, at: int)
    ensures
        forall|choice: EnumOption| #[trigger]
            crate::service::facts::is_choice(cap, at, choice) ==> 0 <= at
                < super::capability_mode::option_labels(cap).len()
                && super::capability_mode::option_labels(cap)[at] == choice.name@,
        0 <= at < super::capability_mode::option_labels(cap).len() ==> exists|choice: EnumOption|
            crate::service::facts::is_choice(cap, at, choice),
{
    crate::service::facts::law_options(cap);
    if 0 <= at < super::capability_mode::option_labels(cap).len() {
        assert(crate::service::facts::is_choice(cap, at, cap.options()[at]));
    }
}

/// Of one label there is one first choice, and of one value there is one.
proof fn lemma_first_choice_is_one(
    cap: DeviceCapability,
    label: Seq<char>,
    value: Json,
    first: EnumOption,
    second: EnumOption,
)
    ensures
        crate::service::facts::is_choice_of_label(cap, label, first)
            && crate::service::facts::is_choice_of_label(cap, label, second) ==> first == second,
        crate::service::facts::is_choice_of_value(cap, value, first)
            && crate::service::facts::is_choice_of_value(cap, value, second) ==> first == second,
{
}

/// The value of a label is that of the first choice that has the label.
pub proof fn law_value_of_label(cap: DeviceCapability, label: Seq<char>, value: Json)
    ensures
        super::capability_mode::value_for_label(cap, label) == Some(value) <==> exists|
            choice: EnumOption,
        | #[trigger]
            crate::service::facts::is_choice_of_label(cap, label, choice)
                && crate::json::json_content(choice.value) == value,
{
    let wanted = super::capability_mode::has_label(label);
    crate::search::lemma_first_where(cap.options(), wanted);
    crate::service::facts::law_options(cap);
    match super::capability_mode::labelled_option(cap, label) {
        Some(found) => {
            let at = choose|at: int|
                #![trigger cap.options()[at]]
                0 <= at < cap.options().len() && cap.options()[at] == found && wanted(found)
                    && forall|j: int| 0 <= j < at ==> !wanted(#[trigger] cap.options()[j]);
            assert(crate::service::facts::is_choice(cap, at, found));
            assert forall|j: int, other: EnumOption|
                j < at && #[trigger] crate::service::facts::is_choice(
                    cap,
                    j,
                    other,
                ) implies other.name@ != label by {
                assert(!wanted(cap.options()[j]));
            }
            assert(crate::service::facts::is_choice_of_label(cap, label, found));
            assert forall|choice: EnumOption| #[trigger]
                crate::service::facts::is_choice_of_label(cap, label, choice) implies choice
                == found by {
                lemma_first_choice_is_one(cap, label, value, choice, found);
            }
        },
        None => {
            assert forall|choice: EnumOption|
                !(#[trigger] crate::service::facts::is_choice_of_label(cap, label, choice)) by {
                if crate::service::facts::is_choice_of_label(cap, label, choice) {
                    let at = choose|at: int| #[trigger]
                        crate::service::facts::is_choice(cap, at, choice);
                    assert(!wanted(cap.options()[at]));
                }
            }
        },
    }
}

/// The label of a value is that of the first choice that has the value, and the empty text has
/// none.
pub proof fn law_label_of_value(cap: DeviceCapability, value: Json, label: Seq<char>)
    ensures
        super::capability_mode::label_for_value(cap, value) == Some(label)
            <==> crate::service::facts::stands_for(cap, value, label),
{
    let wanted = super::capability_mode::has_value(value);
    crate::search::lemma_first_where(cap.options(), wanted);
    crate::service::facts::law_options(cap);
    match super::capability_mode::valued_option(cap, value) {
        Some(found) => {
            let at = choose|at: int|
                #![trigger cap.options()[at]]
                0 <= at < cap.options().len() && cap.options()[at] == found && wanted(found)
                    && forall|j: int| 0 <= j < at ==> !wanted(#[trigger] cap.options()[j]);
            assert(crate::service::facts::is_choice(cap, at, found));
            assert forall|j: int, other: EnumOption|
                j < at && #[trigger] crate::service::facts::is_choice(
                    cap,
                    j,
                    other,
                ) implies crate::json::json_content(other.value) != value by {
                assert(!wanted(cap.options()[j]));
            }
            assert(crate::service::facts::is_choice_of_value(cap, value, found));
            assert forall|choice: EnumOption| #[trigger]
                crate::service::facts::is_choice_of_value(cap, value, choice) implies choice
                == found by {
                lemma_first_choice_is_one(cap, label, value, choice, found);
            }
        },
        None => {
            assert forall|choice: EnumOption|
                !(#[trigger] crate::service::facts::is_choice_of_value(cap, value, choice)) by {
                if crate::service::facts::is_choice_of_value(cap, value, choice) {
                    let at = choose|at: int| #[trigger]
                        crate::service::facts::is_choice(cap, at, choice);
                    assert(!wanted(cap.options()[at]));
                }
            }
        },
    }
}

/// The choice that the platform's report alone tells is the one that its value stands for.
proof fn lemma_platform_label(
    device: Device,
    cap: DeviceCapability,
    instance: Seq<char>,
    label: Seq<char>,
)
    ensures
        super::capability_mode::platform_label(device, cap, instance) == Some(label)
            <==> crate::service::facts::report_shows(device, cap, instance, label),
{
    crate::service::facts::law_platform_value(device, instance);
    if let Some(value) = device.platform_value(instance) {
        assert(crate::service::facts::tells(device, instance, value));
        law_label_of_value(cap, value, label);
    }
}

/// The choice that the IoT speed alone tells is the one that it stands for.
proof fn lemma_iot_label(
    device: Device,
    cap: DeviceCapability,
    instance: Seq<char>,
    label: Seq<char>,
)
    ensures
        super::capability_mode::iot_label(device, cap, instance) == Some(label)
            <==> crate::service::facts::iot_shows(device, cap, instance, label),
{
    if let Some(speed) = device.iot_speed {
        law_label_of_value(cap, Json::Int(speed as int), label);
    }
}

/// A mode whose report stands for a choice is shown by that choice's label.
pub proof fn law_reported_choice_is_shown(
    device: Device,
    cap: DeviceCapability,
    instance: Seq<char>,
    label: Seq<char>,
)
    requires
        crate::service::facts::report_shows(device, cap, instance, label),
    ensures
        super::capability_mode::mode_label(device, cap, instance) == Some(label),
{
    lemma_platform_label(device, cap, instance, label);
}

/// Where the report of a mode stands for no choice, be it absent, the empty text or the value of
/// none, a speed seen over IoT that stands for a choice of the fan speed is shown.
pub proof fn law_iot_choice_is_shown(
    device: Device,
    cap: DeviceCapability,
    instance: Seq<char>,
    label: Seq<char>,
)
    requires
        forall|other: Seq<char>|
            !(#[trigger] crate::service::facts::report_shows(device, cap, instance, other)),
        crate::service::facts::iot_shows(device, cap, instance, label),
    ensures
        super::capability_mode::mode_label(device, cap, instance) == Some(label),
{
    if let Some(other) = super::capability_mode::platform_label(device, cap, instance) {
        lemma_platform_label(device, cap, instance, other);
        assert(crate::service::facts::report_shows(device, cap, instance, other));
    }
    lemma_iot_label(device, cap, instance, label);
}

/// Where neither the report of a mode nor, for the fan speed, the speed seen over IoT stands for a
/// choice, exactly the last commanded label is shown, and nothing where none was commanded.
pub proof fn law_command_is_shown_otherwise(
    device: Device,
    cap: DeviceCapability,
    instance: Seq<char>,
)
    requires
        forall|other: Seq<char>|
            !(#[trigger] crate::service::facts::report_shows(device, cap, instance, other)),
        forall|other: Seq<char>|
            !(#[trigger] crate::service::facts::iot_shows(device, cap, instance, other)),
    ensures
        device.mode_labels@.dom().contains(instance) ==> super::capability_mode::mode_label(
            device,
            cap,
            instance,
        ) == Some(device.mode_labels@[instance]@),
        !device.mode_labels@.dom().contains(instance) ==> super::capability_mode::mode_label(
            device,
            cap,
            instance,
        ) is None,
{
    if let Some(other) = super::capability_mode::platform_label(device, cap, instance) {
        lemma_platform_label(device, cap, instance, other);
        assert(crate::service::facts::report_shows(device, cap, instance, other));
    }
    if let Some(other) = super::capability_mode::iot_label(device, cap, instance) {
        lemma_iot_label(device, cap, instance, other);
        assert(crate::service::facts::iot_shows(device, cap, instance, other));
    }
}

/// Where the platform's value of a mode is absent, the empty text or the value of no choice, and
/// the mode is not the fan speed or no speed was seen over IoT or that speed is the value of no
/// choice, what is shown is what was last commanded, if anything was.
pub proof fn law_no_usable_report_shows_command(
    device: Device,
    cap: DeviceCapability,
    instance: Seq<char>,
)
    requires
        device.platform_value(instance) matches Some(value) ==> value == Json::Str(seq![]) || forall|
            at: int,
            choice: EnumOption,
        | #[trigger]
            crate::service::facts::is_choice(cap, at, choice) ==> crate::json::json_content(
                choice.value,
            ) != value,
        instance == "fanSpeedMode"@ ==> (device.iot_speed matches Some(speed) ==> forall|
            at: int,
            choice: EnumOption,
        | #[trigger]
            crate::service::facts::is_choice(cap, at, choice) ==> crate::json::json_content(
                choice.value,
            ) != Json::Int(speed as int)),
    ensures
        super::capability_mode::mode_label(device, cap, instance) == (
        if device.mode_labels@.dom().contains(instance) {
            Some(device.mode_labels@[instance]@)
        } else {
            None
        }),
{
    crate::service::facts::law_platform_value(device, instance);
    assert forall|other: Seq<char>|
        !(#[trigger] crate::service::facts::report_shows(device, cap, instance, other)) by {
        if crate::service::facts::report_shows(device, cap, instance, other) {
            let value = choose|value: Json| #[trigger]
                crate::service::facts::tells(device, instance, value)
                    && crate::service::facts::stands_for(cap, value, other);
            assert(device.platform_value(instance) == Some(value));
        }
    }
    law_command_is_shown_otherwise(device, cap, instance);
}

/// An error's text names what it is about.
pub proof fn law_error_texts(instance: String, label: String)
    ensures
        (ModeError::NoOptions { instance }).text() == "mode capability "@ + instance@
            + " has no enum options"@,
        ModeError::MissingMetadata.text() == "mode capability metadata missing"@,
        (ModeError::NoCapability { instance }).text() == "device has no mode capability "@
            + instance@,
        (ModeError::UnknownLabel { label, instance }).text() == "mode label "@ + label@
            + " not found for "@ + instance@,
{
}

/// A select takes commands and reports on topics that are made of the device's topic id and end in
/// the topic segment of its instance. It is an entity of that device, and offers the capability's
/// labels.
pub proof fn law_select_config(select: CapabilityModeSelect, device: Device, cap: DeviceCapability)
    requires
        select.is_select_of(device, cap),
    ensures
        select.select.command_topic@ == "gv2mqtt/select/"@
            + crate::service::hass::device_topic_id(device) + "/command/"@
            + crate::service::hass::topic_safe(cap.instance@),
        select.select.state_topic@ == "gv2mqtt/select/"@ + crate::service::hass::device_topic_id(
            device,
        ) + "/state/"@ + crate::service::hass::topic_safe(cap.instance@),
        select.select.base.is_plain_entity(
            device,
            super::capability_mode::mode_display_name(cap.instance@),
            crate::service::hass::topic_safe(cap.instance@),
        ),
        select.select.options@.len() == super::capability_mode::option_labels(cap).len(),
        forall|i: int|
            0 <= i < select.select.options@.len() ==> (#[trigger] select.select.options@[i])@
                == super::capability_mode::option_labels(cap)[i],
        select.device_id@ == device.id@,
        select.instance_name@ == cap.instance@,
{
    let shown = select.select.options@.map_values(|label: String| label@);
    assert(shown.len() == select.select.options@.len());
    assert forall|i: int| 0 <= i < select.select.options@.len() implies (
    #[trigger] select.select.options@[i])@ == super::capability_mode::option_labels(cap)[i] by {
        assert(shown[i] == select.select.options@[i]@);
    }
}

/// Two texts of topic safe characters that follow a slash are told apart by what they end.
proof fn lemma_segment_is_read_back(
    first: Seq<char>,
    second: Seq<char>,
    one: Seq<char>,
    other: Seq<char>,
)
    requires
        first.len() > 0,
        second.len() > 0,
        first.last() == '/',
        second.last() == '/',
        !one.contains('/'),
        !other.contains('/'),
        first + one == second + other,
    ensures
        first == second,
        one == other,
{
    let whole = first + one;
    assert(whole.len() == (second + other).len());
    if first.len() < second.len() {
        assert((second + other)[second.len() - 1] == '/');
        assert(whole[second.len() - 1] == one[second.len() - 1 - first.len()]);
        assert(one.contains('/'));
    } else if second.len() < first.len() {
        assert(whole[first.len() - 1] == '/');
        assert((second + other)[first.len() - 1] == other[first.len() - 1 - second.len()]);
        assert(other.contains('/'));
    }
    assert(whole.take(first.len() as int) =~= first);
    assert((second + other).take(second.len() as int) =~= second);
    assert(whole.skip(first.len() as int) =~= one);
    assert((second + other).skip(second.len() as int) =~= other);
}

/// A select's topics tell which device and which instance it is of: the topics of two selects are
/// equal only where the devices' topic ids and the instances' topic segments are. On one device,
/// the selects' ids differ with the segments, too.
pub proof fn law_selects_are_distinct(
    first: CapabilityModeSelect,
    second: CapabilityModeSelect,
    device: Device,
    other: Device,
    cap: DeviceCapability,
    another: DeviceCapability,
)
    requires
        first.is_select_of(device, cap),
        second.is_select_of(other, another),
    ensures
        first.select.state_topic@ == second.select.state_topic@ <==> {
            &&& crate::service::hass::device_topic_id(device)
                == crate::service::hass::device_topic_id(other)
            &&& crate::service::hass::topic_safe(cap.instance@) == crate::service::hass::topic_safe(
                another.instance@,
            )
        },
        first.select.command_topic@ == second.select.command_topic@ <==> {
            &&& crate::service::hass::device_topic_id(device)
                == crate::service::hass::device_topic_id(other)
            &&& crate::service::hass::topic_safe(cap.instance@) == crate::service::hass::topic_safe(
                another.instance@,
            )
        },
        device == other && crate::service::hass::topic_safe(cap.instance@)
            != crate::service::hass::topic_safe(another.instance@)
            ==> first.select.base.unique_id@ != second.select.base.unique_id@,
        first.select.state_topic@.len() >= cap.instance@.len(),
        first.select.state_topic@.skip(first.select.state_topic@.len() - cap.instance@.len())
            == crate::service::hass::topic_safe(cap.instance@),
{
    let a = crate::service::hass::device_topic_id(device);
    let b = crate::service::hass::device_topic_id(other);
    let s = crate::service::hass::topic_safe(cap.instance@);
    let t = crate::service::hass::topic_safe(another.instance@);
    let start = "gv2mqtt/select/"@;
    reveal_strlit("/state/");
    reveal_strlit("/command/");
    crate::service::hass::law_segment_is_safe(cap.instance@);
    crate::service::hass::law_segment_is_safe(another.instance@);
    assert(!s.contains('/'));
    assert(!t.contains('/'));
    if start + a + "/state/"@ + s == start + b + "/state/"@ + t {
        lemma_segment_is_read_back(start + a + "/state/"@, start + b + "/state/"@, s, t);
        super::switch_laws::lemma_suffix_cancels(start + a, start + b, "/state/"@);
        super::switch_laws::lemma_prefix_cancels(start, a, b);
    }
    if start + a + "/command/"@ + s == start + b + "/command/"@ + t {
        lemma_segment_is_read_back(start + a + "/command/"@, start + b + "/command/"@, s, t);
        super::switch_laws::lemma_suffix_cancels(start + a, start + b, "/command/"@);
        super::switch_laws::lemma_prefix_cancels(start, a, b);
    }
    super::switch_laws::lemma_prefix_cancels("gv2mqtt-"@ + a + "-"@, s, t);
    let topic = start + a + "/state/"@ + s;
    assert(topic.skip(topic.len() - s.len()) =~= s);
}

/// A choice in front of the others is the one that its label and its value select, the empty text
/// apart. It changes nothing for any other label or value. Without choices nothing is selected.
pub proof fn law_choice_in_front(
    cap: DeviceCapability,
    longer: DeviceCapability,
    rest: Vec<EnumOption>,
    options: Vec<EnumOption>,
    choice: EnumOption,
    label: Seq<char>,
    value: Json,
)
    requires
        cap.parameters == Some(DeviceParameters::Enum { options: rest }),
        longer.parameters == Some(DeviceParameters::Enum { options }),
        options@ == seq![choice] + rest@,
    ensures
        super::capability_mode::option_labels(longer) == seq![choice.name@]
            + super::capability_mode::option_labels(cap),
        choice.name@ == label ==> super::capability_mode::value_for_label(longer, label) == Some(
            crate::json::json_content(choice.value),
        ),
        choice.name@ != label ==> super::capability_mode::value_for_label(longer, label)
            == super::capability_mode::value_for_label(cap, label),
        value != Json::Str(seq![]) && crate::json::json_content(choice.value) == value
            ==> super::capability_mode::label_for_value(longer, value) == Some(choice.name@),
        crate::json::json_content(choice.value) != value ==> super::capability_mode::label_for_value(
            longer,
            value,
        ) == super::capability_mode::label_for_value(cap, value),
        rest@.len() == 0 ==> {
            &&& super::capability_mode::option_labels(cap).len() == 0
            &&& super::capability_mode::value_for_label(cap, label) is None
            &&& super::capability_mode::label_for_value(cap, value) is None
        },
{
    assert(options@.skip(1) =~= rest@);
    assert(super::capability_mode::option_labels(longer) =~= seq![choice.name@]
        + super::capability_mode::option_labels(cap));
}

/// A capability whose parameter is not enumerated offers nothing, and has no label or value.
pub proof fn law_no_enumeration_no_choice(
    cap: DeviceCapability,
    label: Seq<char>,
    value: Json,
)
    requires
        !(cap.parameters matches Some(DeviceParameters::Enum { options })),
    ensures
        super::capability_mode::option_labels(cap).len() == 0,
        super::capability_mode::value_for_label(cap, label) is None,
        super::capability_mode::label_for_value(cap, value) is None,
{
}

/// The label that is shown of a mode comes from the platform's value where that has a label, else,
/// for the fan speed alone, from the speed seen over IoT where that has one, else from the last
/// command.
pub proof fn law_shown_label(device: Device, cap: DeviceCapability, instance: Seq<char>)
    ensures
        device.platform_value(instance) matches Some(value) ==> (
        super::capability_mode::label_for_value(cap, value) matches Some(label)
            ==> super::capability_mode::mode_label(device, cap, instance) == Some(label)),
        (device.platform_value(instance) matches Some(value)
            ==> super::capability_mode::label_for_value(cap, value) is None) ==> {
            &&& instance == "fanSpeedMode"@ ==> (device.iot_speed matches Some(speed) ==> (
            super::capability_mode::label_for_value(cap, Json::Int(speed as int)) matches Some(
                label,
            ) ==> super::capability_mode::mode_label(device, cap, instance) == Some(label)))
            &&& (instance == "fanSpeedMode"@ ==> (device.iot_speed matches Some(speed)
                ==> super::capability_mode::label_for_value(cap, Json::Int(speed as int)) is None))
                ==> super::capability_mode::mode_label(device, cap, instance) == (
            if device.mode_labels@.dom().contains(instance) {
                Some(device.mode_labels@[instance]@)
            } else {
                None
            })
        },
{
}

} // verus!
