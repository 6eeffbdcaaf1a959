//! The arguments of a launch or an attach request, which the protocol leaves to the adapter.

use vstd::prelude::*;

verus! {

/// A JSON value of `serde_json`, opaque here.
#[verifier::external_type_specification]
#[verifier::external_body]
pub struct ExValue(serde_json::Value);

/// What `serde_json::Value::get` gives for a text key: the member of an object.
pub uninterp spec fn json_member(
    value: serde_json::Value,
    key: Seq<char>,
) -> Option<serde_json::Value>;

/// What `serde_json::Value::as_bool` gives: the truth value, of a value that is one.
pub uninterp spec fn json_bool(value: serde_json::Value) -> Option<bool>;

/// `serde_json::Value::get` with a text key. Claims that the member depends on the value and on
/// the key alone; which members a value has is left unsaid, as the type is opaque.
#[verifier::external_body]
fn get_member<'a>(value: &'a serde_json::Value, key: &str) -> (r: Option<&'a serde_json::Value>)
    ensures
        r == match json_member(*value, key@) {
            Some(member) => Some(&member),
            None => None,
        },
{
    value.get(key)
}

/// `serde_json::Value::as_bool`. Claims that the result depends on the value alone; which values
/// are truth values is left unsaid, as the type is opaque.
pub assume_specification[ serde_json::Value::as_bool ](json: &serde_json::Value) -> (r: Option<
    bool,
>)
    ensures
        r == json_bool(*json),
;

/// The flag, given what stands under its two spellings: nothing, or something that may or may
/// not be a truth value. What stands under the first spelling hides the second, even where it is
/// no truth value.
pub open spec fn flag_of(camel: Option<Option<bool>>, snake: Option<Option<bool>>) -> Option<bool> {
    match (camel, snake) {
        (Some(flag), _) => flag,
        (None, Some(flag)) => flag,
        (None, None) => None,
    }
}

/// What stands under a key, as far as it is a truth value.
pub open spec fn member_flag(raw: serde_json::Value, key: Seq<char>) -> Option<Option<bool>> {
    match json_member(raw, key) {
        Some(member) => Some(json_bool(member)),
        None => None,
    }
}

/// The flag that launch arguments carry.
pub open spec fn stop_on_entry_of(raw: serde_json::Value) -> Option<bool> {
    flag_of(member_flag(raw, "stopOnEntry"@), member_flag(raw, "stop_on_entry"@))
}

/// Chooses between what stands under the two spellings of the flag.
pub fn choose_flag(camel: Option<Option<bool>>, snake: Option<Option<bool>>) -> (r: Option<bool>)
    ensures
        r == flag_of(camel, snake),
{
    match camel {
        Some(flag) => flag,
        None => match snake {
            Some(flag) => flag,
            None => None,
        },
    }
}

fn read_flag(raw: &serde_json::Value, key: &str) -> (r: Option<Option<bool>>)
    ensures
        r == member_flag(*raw, key@),
{
    match get_member(raw, key) {
        Some(member) => Some(member.as_bool()),
        None => None,
    }
}

/// Reads from launch arguments whether the debuggee is to stop on entry.
pub fn parse_stop_on_entry(raw: &serde_json::Value) -> (r: Option<bool>)
    ensures
        r == stop_on_entry_of(*raw),
{
    choose_flag(read_flag(raw, "stopOnEntry"), read_flag(raw, "stop_on_entry"))
}

/// What stands under `stopOnEntry` decides, even where it is no truth value; without it, what
/// stands under `stop_on_entry`; without either, nothing is said.
pub proof fn law_first_spelling_decides(raw: serde_json::Value)
    ensures
        match (json_member(raw, "stopOnEntry"@), json_member(raw, "stop_on_entry"@)) {
            (Some(member), _) => stop_on_entry_of(raw) == json_bool(member),
            (None, Some(member)) => stop_on_entry_of(raw) == json_bool(member),
            (None, None) => stop_on_entry_of(raw) is None,
        },
{
}

/// Of two flags the first one counts where there is one, whatever the second; the second counts
/// where there is no first.
pub proof fn law_first_flag_hides_second(first: Option<bool>, second: Option<Option<bool>>)
    ensures
        flag_of(Some(first), second) == first,
        flag_of(None, Some(first)) == first,
        flag_of(None, None) is None,
{
}

} // verus!
