//! The routing payload of an incoming token transfer: a JSON text that names
//! the receiver of the payment and the account that takes the burn.

use vstd::prelude::*;

verus! {

#[verifier::external_type_specification]
#[verifier::external_body]
pub struct ExJsonValue(near_sdk::serde_json::Value);

#[verifier::external_type_specification]
#[verifier::external_body]
pub struct ExJsonError(near_sdk::serde_json::Error);

/// The text members of a JSON value: where the value is an object, its keys
/// whose member is a string, each with that string; empty for any other value.
pub uninterp spec fn json_text_members(value: near_sdk::serde_json::Value) -> Map<
    Seq<char>,
    Seq<char>,
>;

/// The text members of the value that a JSON text stands for, or `None` for a
/// text that is not one JSON value.
pub uninterp spec fn json_parsed_members(text: Seq<char>) -> Option<Map<Seq<char>, Seq<char>>>;

/// Calls `serde_json::from_str` for a `Value`. Trusted: whether a text is read
/// and what text members the value read has depend on the text alone.
#[verifier::external_body]
fn json_from_str(text: &str) -> (r: Result<
    near_sdk::serde_json::Value,
    near_sdk::serde_json::Error,
>)
    ensures
        r matches Ok(value) ==> json_parsed_members(text@) == Some(json_text_members(value)),
        r is Err ==> json_parsed_members(text@) is None,
{
    near_sdk::serde_json::from_str(text)
}

/// Indexes a `serde_json::Value` by a key and calls `Value::as_str` on what is
/// there. Trusted: the result is the string under that key where the value is
/// an object that holds a string there, and `None` otherwise.
#[verifier::external_body]
fn json_text_member(value: &near_sdk::serde_json::Value, key: &str) -> (r: Option<String>)
    ensures
        r matches Some(s) ==> json_text_members(*value).contains_key(key@) && json_text_members(
            *value,
        )[key@] == s@,
        r is None ==> !json_text_members(*value).contains_key(key@),
{
    match value[key].as_str() {
        Some(s) => Some(s.to_string()),
        None => None,
    }
}

/// Why a routing payload was refused.
#[derive(Clone, Copy, Debug, PartialEq, Eq, Structural)]
pub enum PayloadError {
    /// The payload is not a JSON text.
    Unparsed,
    /// The payload has no string under `receiver`.
    MissingReceiver,
    /// The payload has no string under `burner`.
    MissingBurner,
}

/// Where a token payment goes: who receives it and who takes the burn.
#[derive(Clone, Debug)]
pub struct Routing {
    pub receiver: String,
    pub burner: String,
}

/// A routing as plain sequences of characters.
pub struct RoutingView {
    pub receiver: Seq<char>,
    pub burner: Seq<char>,
}

impl View for Routing {
    type V = RoutingView;

    open spec fn view(&self) -> RoutingView {
        RoutingView { receiver: self.receiver@, burner: self.burner@ }
    }
}

/// The member of a payload under a key, if it has a string there.
pub open spec fn member_of(members: Map<Seq<char>, Seq<char>>, key: Seq<char>) -> Option<
    Seq<char>,
> {
    if members.contains_key(key) {
        Some(members[key])
    } else {
        None
    }
}

/// The routing that the two members of a payload give: both are needed, and a
/// missing receiver is reported before a missing burner.
pub open spec fn routing_of_members(
    receiver: Option<Seq<char>>,
    burner: Option<Seq<char>>,
) -> Result<RoutingView, PayloadError> {
    match (receiver, burner) {
        (None, _) => Err(PayloadError::MissingReceiver),
        (Some(_), None) => Err(PayloadError::MissingBurner),
        (Some(r), Some(b)) => Ok(RoutingView { receiver: r, burner: b }),
    }
}

/// The routing that a payload text gives.
pub open spec fn routing_of(text: Seq<char>) -> Result<RoutingView, PayloadError> {
    match json_parsed_members(text) {
        None => Err(PayloadError::Unparsed),
        Some(members) => routing_of_members(
            member_of(members, "receiver"@),
            member_of(members, "burner"@),
        ),
    }
}

/// `got` is `expected`, the routing taken by its view.
pub open spec fn routing_result_is(
    got: Result<Routing, PayloadError>,
    expected: Result<RoutingView, PayloadError>,
) -> bool {
    match got {
        Ok(routing) => expected == Ok::<RoutingView, PayloadError>(routing@),
        Err(e) => expected == Err::<RoutingView, PayloadError>(e),
    }
}

/// The view of an optional string.
pub open spec fn text_of(s: Option<String>) -> Option<Seq<char>> {
    match s {
        Some(t) => Some(t@),
        None => None,
    }
}

/// Builds the routing from the two members read out of a payload.
pub fn routing_from_members(receiver: Option<String>, burner: Option<String>) -> (r: Result<
    Routing,
    PayloadError,
>)
    ensures
        routing_result_is(r, routing_of_members(text_of(receiver), text_of(burner))),
{
    match receiver {
        None => Err(PayloadError::MissingReceiver),
        Some(receiver) => match burner {
            None => Err(PayloadError::MissingBurner),
            Some(burner) => Ok(Routing { receiver, burner }),
        },
    }
}

/// Reads the routing out of the payload of an incoming token transfer.
///
/// The payload must be a JSON object with a string under `receiver` and a
/// string under `burner`; anything else is refused, a text that is no JSON
/// first, then a missing receiver, then a missing burner.
pub fn parse_routing(msg: &str) -> (r: Result<Routing, PayloadError>)
    ensures
        routing_result_is(r, routing_of(msg@)),
{
    match json_from_str(msg) {
        Err(_) => Err(PayloadError::Unparsed),
        Ok(value) => {
            let receiver = json_text_member(&value, "receiver");
            let burner = json_text_member(&value, "burner");
            routing_from_members(receiver, burner)
        },
    }
}

} // verus!
