//! Text that names things for Home Assistant: display names and MQTT topics.

use super::device::Device;
use vstd::prelude::*;

verus! {

pub open spec fn is_upper_letter(c: char) -> bool {
    'A' <= c <= 'Z'
}

/// An ASCII letter in upper case; any other character as it is.
pub open spec fn upper_letter(c: char) -> char {
    if 'a' <= c <= 'z' {
        (c as u8 - 32) as char
    } else {
        c
    }
}

/// A camel case name as words: the first letter in upper case, and a space before each later
/// upper case letter.
pub open spec fn spaced_words(camel: Seq<char>) -> Seq<char>
    decreases camel.len(),
{
    if camel.len() == 0 {
        seq![]
    } else if camel.len() == 1 {
        seq![upper_letter(camel[0])]
    } else if is_upper_letter(camel.last()) {
        spaced_words(camel.drop_last()).push(' ').push(camel.last())
    } else {
        spaced_words(camel.drop_last()).push(camel.last())
    }
}

/// Turns a camel case name such as `powerSwitch` into words such as `Power Switch`.
pub fn camel_case_to_space_separated(camel: &str) -> (words: String)
    ensures
        words@ == spaced_words(camel@),
{
    let mut words: String = String::new();
    let mut first: bool = true;
    for c in letters: camel.chars()
        invariant
            letters.seq() == camel@,
            first == (letters.index() == 0),
            words@ == spaced_words(camel@.take(letters.index())),
    {
        let ghost done = letters.index();
        assert(camel@.take(done + 1).drop_last() =~= camel@.take(done));
        if first {
            if 'a' <= c && c <= 'z' {
                words.push((c as u8 - 32) as char);
            } else {
                words.push(c);
            }
            first = false;
        } else {
            if 'A' <= c && c <= 'Z' {
                words.push(' ');
            }
            words.push(c);
        }
    }
    assert(camel@.take(camel@.len() as int) =~= camel@);
    words
}

/// Characters that mean nothing special in an MQTT topic or an entity id.
pub open spec fn is_topic_safe(c: char) -> bool {
    'a' <= c <= 'z' || 'A' <= c <= 'Z' || '0' <= c <= '9' || c == '-' || c == '_'
}

pub open spec fn topic_safe_char(c: char) -> char {
    if is_topic_safe(c) {
        c
    } else {
        '_'
    }
}

/// A text with an underscore in place of each character that is not topic safe.
pub open spec fn topic_safe(text: Seq<char>) -> Seq<char> {
    text.map_values(|c: char| topic_safe_char(c))
}

/// Makes a text fit to be one segment of an MQTT topic.
pub fn topic_safe_string(text: &str) -> (safe: String)
    ensures
        safe@ == topic_safe(text@),
{
    let mut safe: String = String::new();
    for c in letters: text.chars()
        invariant
            letters.seq() == text@,
            safe@ == topic_safe(text@.take(letters.index())),
    {
        let ghost done = letters.index();
        assert(text@.take(done + 1) =~= text@.take(done).push(c));
        if ('a' <= c && c <= 'z') || ('A' <= c && c <= 'Z') || ('0' <= c && c <= '9') || c == '-'
            || c == '_' {
            safe.push(c);
        } else {
            safe.push('_');
        }
        assert(safe@ =~= topic_safe(text@.take(done + 1)));
    }
    assert(text@.take(text@.len() as int) =~= text@);
    safe
}

/// A text without its colons.
pub open spec fn without_colons(text: Seq<char>) -> Seq<char> {
    text.filter(|c: char| c != ':')
}

/// The device's address without its colons.
pub open spec fn device_topic_id(device: Device) -> Seq<char> {
    without_colons(device.id@)
}

pub fn topic_safe_id(device: &Device) -> (id: String)
    ensures
        id@ == device_topic_id(*device),
{
    let mut id: String = String::new();
    let address: &str = device.id.as_str();
    proof {
        reveal(Seq::filter);
    }
    for c in letters: address.chars()
        invariant
            letters.seq() == address@,
            id@ == without_colons(address@.take(letters.index())),
    {
        proof {
            reveal(Seq::filter);
            let done = letters.index();
            assert(address@.take(done + 1).drop_last() =~= address@.take(done));
        }
        if c != ':' {
            id.push(c);
        }
    }
    assert(address@.take(address@.len() as int) =~= address@);
    id
}

/// The topic on which a switch reports: `gv2mqtt/switch/<id>/<instance>/state`.
pub open spec fn switch_state_topic(id: Seq<char>, instance: Seq<char>) -> Seq<char> {
    "gv2mqtt/switch/"@ + id + "/"@ + instance + "/state"@
}

pub fn switch_instance_state_topic(device: &Device, instance: &str) -> (topic: String)
    ensures
        topic@ == switch_state_topic(device_topic_id(*device), instance@),
{
    let id: String = topic_safe_id(device);
    let mut topic: String = "gv2mqtt/switch/".to_owned();
    topic.append(id.as_str());
    topic.append("/");
    topic.append(instance);
    topic.append("/state");
    topic
}

/// The one topic on which the bridge says whether it is up, for all of its entities.
pub fn availability_topic() -> (topic: String)
    ensures
        topic@ == "gv2mqtt/availability"@,
{
    "gv2mqtt/availability".to_owned()
}

/// A topic segment has no separator, no wildcard and no space: topic safe characters alone.
pub proof fn law_segment_is_safe(text: Seq<char>)
    ensures
        topic_safe(text).len() == text.len(),
        forall|i: int|
            0 <= i < text.len() ==> is_topic_safe(#[trigger] topic_safe(text)[i]),
{
}

/// A text of topic safe characters is its own topic segment, so that a capability instance of such
/// characters can be read back from its select's command topic.
pub proof fn law_safe_text_is_kept(text: Seq<char>)
    requires
        forall|i: int| 0 <= i < text.len() ==> is_topic_safe(#[trigger] text[i]),
    ensures
        topic_safe(text) == text,
{
    assert(topic_safe(text) =~= text);
}

/// The topic id of a device holds the characters of its address but for the colons.
pub proof fn law_topic_id_has_no_colon(device: Device)
    ensures
        !device_topic_id(device).contains(':'),
        forall|c: char|
            c != ':' && #[trigger] device.id@.contains(c) ==> device_topic_id(device).contains(c),
{
    broadcast use vstd::seq_lib::group_filter_ensures;

    let kept = |c: char| c != ':';
    let id = device_topic_id(device);
    assert(id == device.id@.filter(kept));
    assert forall|i: int| 0 <= i < id.len() implies #[trigger] id[i] != ':' by {
        assert(kept(id[i]));
    }
    assert forall|c: char| c != ':' && #[trigger] device.id@.contains(c) implies id.contains(c) by {
        let i = choose|i: int| 0 <= i < device.id@.len() && device.id@[i] == c;
        assert(kept(device.id@[i]));
    }
}

/// A name of one letter is that letter, raised. A further character is added to the words as it
/// is, after a space where it is an upper case letter.
pub proof fn law_words_grow(camel: Seq<char>, c: char)
    ensures
        spaced_words(seq![]) == Seq::<char>::empty(),
        camel.len() == 0 ==> spaced_words(camel.push(c)) == seq![upper_letter(c)],
        camel.len() > 0 && 'A' <= c <= 'Z' ==> spaced_words(camel.push(c)) == spaced_words(camel)
            + seq![' ', c],
        camel.len() > 0 && !('A' <= c <= 'Z') ==> spaced_words(camel.push(c)) == spaced_words(camel)
            + seq![c],
{
    assert(camel.push(c).drop_last() =~= camel);
}

/// To raise a letter is to turn each of a to z into the one of A to Z at the same place, and to
/// keep every other character.
pub proof fn law_raised_letter(c: char)
    ensures
        'a' <= c <= 'z' ==> 'A' <= upper_letter(c) <= 'Z' && upper_letter(c) as int - 'A' as int
            == c as int - 'a' as int,
        !('a' <= c <= 'z') ==> upper_letter(c) == c,
{
}

/// Each character of a topic segment stands where it stood in the text: itself if it is a letter,
/// a digit, a dash or an underscore of ASCII, and an underscore if it is not.
pub proof fn law_segment_characters(text: Seq<char>, i: int)
    requires
        0 <= i < text.len(),
    ensures
        topic_safe(text).len() == text.len(),
        ('a' <= text[i] <= 'z' || 'A' <= text[i] <= 'Z' || '0' <= text[i] <= '9' || text[i] == '-'
            || text[i] == '_') ==> topic_safe(text)[i] == text[i],
        !('a' <= text[i] <= 'z' || 'A' <= text[i] <= 'Z' || '0' <= text[i] <= '9' || text[i] == '-'
            || text[i] == '_') ==> topic_safe(text)[i] == '_',
{
}

/// An address without characters has an empty topic id. A further character of the address is
/// added to the topic id, unless it is a colon.
pub proof fn law_topic_id_grows(device: Device, longer: Device, c: char)
    requires
        longer.id@ == device.id@.push(c),
    ensures
        device.id@.len() == 0 ==> device_topic_id(device).len() == 0,
        c == ':' ==> device_topic_id(longer) == device_topic_id(device),
        c != ':' ==> device_topic_id(longer) == device_topic_id(device).push(c),
{
    reveal(Seq::filter);
    assert(longer.id@.drop_last() =~= device.id@);
}

/// A switch's state topic is made of its parts in this order.
pub proof fn law_switch_state_topic(id: Seq<char>, instance: Seq<char>)
    ensures
        switch_state_topic(id, instance) == "gv2mqtt/switch/"@ + id + "/"@ + instance + "/state"@,
{
}

} // verus!
