//! Inbound message decoding.
//!
//! An inbound bus message is a JSON object with a `command` member naming
//! the command and a `params` object carrying its arguments. The JSON text
//! itself is decoded by serde_json behind the trusted items below; each
//! outside call's result is a function of its argument alone and is given a
//! name, so that the decode of a payload is pinned, end to end, as
//! `spec_parse_inbound` of its bytes. The protocol reading of the decoded
//! document — which member names a command, which parameter each command
//! requires, and what the command means — is verified here and in
//! `commands`.

use vstd::prelude::*;
use crate::commands::{Command, CommandKind, Effects, route, validate, dispatch, spec_dispatch,
    spec_route, spec_validate, no_effects};
use crate::number::{number_centi, spec_centi_clamped};
use crate::volume::AudioState;

verus! {

/// Declares serde_json's document type so that decoded values can cross
/// the trusted boundary; the value itself stays opaque.
#[verifier::external_type_specification]
#[verifier::external_body]
pub struct ExValue(serde_json::Value);

/// The document that a byte payload decodes to, if it is valid JSON: what
/// serde_json::from_slice returns, a function of the bytes alone.
pub uninterp spec fn json_doc_of(payload: Seq<u8>) -> Option<serde_json::Value>;

/// The value of a document's named member, if the document is an object
/// with that member: what serde_json::Value::get returns, a function of
/// the document and the key alone.
pub uninterp spec fn member_of(v: serde_json::Value, key: Seq<char>) -> Option<serde_json::Value>;

/// The text of a document value, if it is a JSON string: what
/// serde_json::Value::as_str returns, a function of the value alone.
pub uninterp spec fn string_of(v: serde_json::Value) -> Option<Seq<char>>;

/// The content of a document value, if it is a JSON boolean: what
/// serde_json::Value::as_bool returns, a function of the value alone.
pub uninterp spec fn bool_of(v: serde_json::Value) -> Option<bool>;

/// The decimal text of a document value, if it is a JSON number: what
/// serde_json::Number's Display renders, a function of the value alone.
pub uninterp spec fn number_text_of(v: serde_json::Value) -> Option<Seq<char>>;

/// Relies on serde_json::from_slice: decodes a JSON document from bytes,
/// returning the decoded value, or nothing when the bytes are not valid
/// JSON. The same bytes always decode to the same document.
#[verifier::external_body]
fn parse_json(payload: &[u8]) -> (r: Option<serde_json::Value>)
    ensures
        r == json_doc_of(payload@),
{
    serde_json::from_slice(payload).ok()
}

/// Relies on serde_json::Value::get: the value of the named member when
/// the value is an object with that member, and nothing otherwise.
#[verifier::external_body]
fn get_field<'a>(v: &'a serde_json::Value, key: &str) -> (r: Option<&'a serde_json::Value>)
    ensures
        r is Some <==> member_of(*v, key@) is Some,
        r matches Some(f) ==> member_of(*v, key@) == Some(*f),
{
    v.get(key)
}

/// Relies on serde_json::Value::as_str: the text of the value when it is a
/// JSON string, and nothing otherwise.
#[verifier::external_body]
fn value_as_string(v: &serde_json::Value) -> (r: Option<String>)
    ensures
        r is Some <==> string_of(*v) is Some,
        r matches Some(s) ==> string_of(*v) == Some(s@),
{
    v.as_str().map(str::to_owned)
}

/// Relies on serde_json::Value::as_bool: the value when it is a JSON
/// boolean, and nothing otherwise.
#[verifier::external_body]
fn value_as_bool(v: &serde_json::Value) -> (r: Option<bool>)
    ensures
        r == bool_of(*v),
{
    v.as_bool()
}

/// Relies on serde_json::Value::Number and Number's Display: the decimal
/// text of the value when it is a JSON number, and nothing otherwise. For
/// floating-point magnitudes far outside the protocol range the renderer
/// uses exponent notation, which the number parser treats as malformed.
#[verifier::external_body]
fn value_number_text(v: &serde_json::Value) -> (r: Option<String>)
    ensures
        r is Some <==> number_text_of(*v) is Some,
        r matches Some(s) ==> number_text_of(*v) == Some(s@),
{
    match v {
        serde_json::Value::Number(n) => Some(n.to_string()),
        _ => None,
    }
}

/// The name of the numeric parameter a command kind requires, if any.
pub open spec fn spec_num_key(kind: CommandKind) -> Option<Seq<char>> {
    match kind {
        CommandKind::SetVolume => Some("volumeLevel"@),
        CommandKind::VolumeRelative => Some("relativeSteps"@),
        _ => None,
    }
}

/// The name of the boolean parameter a command kind requires, if any.
pub open spec fn spec_flag_key(kind: CommandKind) -> Option<Seq<char>> {
    match kind {
        CommandKind::Mute => Some("mute"@),
        CommandKind::OnOff => Some("on"@),
        _ => None,
    }
}

/// The numeric parameter a command kind reads from the `params` object, in
/// hundredths of a percentage point: the decimal text of the parameter's
/// number, parsed and saturated. Nothing for a kind without a numeric
/// parameter, a missing member, or a member that is not a number.
pub open spec fn spec_read_num(p: serde_json::Value, kind: CommandKind) -> Option<i64> {
    match spec_num_key(kind) {
        Some(key) => match member_of(p, key) {
            Some(field) => match number_text_of(field) {
                Some(text) => spec_centi_clamped(text),
                None => None,
            },
            None => None,
        },
        None => None,
    }
}

/// The boolean parameter a command kind reads from the `params` object.
/// Nothing for a kind without a boolean parameter, a missing member, or a
/// member that is not a boolean.
pub open spec fn spec_read_flag(p: serde_json::Value, kind: CommandKind) -> Option<bool> {
    match spec_flag_key(kind) {
        Some(key) => match member_of(p, key) {
            Some(field) => bool_of(field),
            None => None,
        },
        None => None,
    }
}

/// The command a payload decodes to: nothing unless the bytes are valid
/// JSON whose `command` member is a string; otherwise the routed command
/// validated against the parameters read from the `params` member.
pub open spec fn spec_parse_inbound(payload: Seq<u8>) -> Option<Command> {
    match json_doc_of(payload) {
        None => None,
        Some(v) => match member_of(v, "command"@) {
            None => None,
            Some(name) => match string_of(name) {
                None => None,
                Some(name_text) => Some(
                    spec_validate(
                        spec_route(name_text),
                        (match member_of(v, "params"@) {
                            Some(p) => spec_read_num(p, spec_route(name_text)),
                            None => None,
                        }),
                        (match member_of(v, "params"@) {
                            Some(p) => spec_read_flag(p, spec_route(name_text)),
                            None => None,
                        }),
                    ),
                ),
            },
        },
    }
}

/// The numeric parameter name of a command kind.
fn num_key(kind: CommandKind) -> (r: Option<&'static str>)
    ensures
        r is Some <==> spec_num_key(kind) is Some,
        r matches Some(s) ==> spec_num_key(kind) == Some(s@),
{
    match kind {
        CommandKind::SetVolume => Some("volumeLevel"),
        CommandKind::VolumeRelative => Some("relativeSteps"),
        _ => None,
    }
}

/// The boolean parameter name of a command kind.
fn flag_key(kind: CommandKind) -> (r: Option<&'static str>)
    ensures
        r is Some <==> spec_flag_key(kind) is Some,
        r matches Some(s) ==> spec_flag_key(kind) == Some(s@),
{
    match kind {
        CommandKind::Mute => Some("mute"),
        CommandKind::OnOff => Some("on"),
        _ => None,
    }
}

/// Read the numeric parameter of a command kind from the `params` object.
fn read_num(p: &serde_json::Value, kind: CommandKind) -> (r: Option<i64>)
    ensures
        r == spec_read_num(*p, kind),
{
    match num_key(kind) {
        Some(key) => match get_field(p, key) {
            Some(field) => match value_number_text(field) {
                Some(text) => number_centi(text.as_str()),
                None => None,
            },
            None => None,
        },
        None => None,
    }
}

/// Read the boolean parameter of a command kind from the `params` object.
fn read_flag(p: &serde_json::Value, kind: CommandKind) -> (r: Option<bool>)
    ensures
        r == spec_read_flag(*p, kind),
{
    match flag_key(kind) {
        Some(key) => match get_field(p, key) {
            Some(field) => value_as_bool(field),
            None => None,
        },
        None => None,
    }
}

/// Decode one inbound bus payload into a validated command.
///
/// Returns nothing when the payload is not valid JSON or carries no string
/// `command` member; the caller skips such a message and keeps the loop
/// available. A recognized command with an absent or malformed parameter
/// decodes to `Command::Invalid`, an unrecognized identifier to
/// `Command::Unknown`; both dispatch as strict no-ops.
pub fn parse_inbound(payload: &[u8]) -> (c: Option<Command>)
    ensures
        c == spec_parse_inbound(payload@),
{
    match parse_json(payload) {
        None => None,
        Some(v) => {
            let name = match get_field(&v, "command") {
                Some(n) => value_as_string(n),
                None => None,
            };
            match name {
                None => None,
                Some(name_text) => {
                    let kind = route(&name_text);
                    let (num, flag) = match get_field(&v, "params") {
                        Some(p) => (read_num(p, kind), read_flag(p, kind)),
                        None => (None, None),
                    };
                    Some(validate(kind, num, flag))
                },
            }
        },
    }
}

/// Decode one inbound payload and decide its effects against the current
/// audio state. The command is exactly the decode of the payload bytes,
/// the effects exactly the dispatch of that command; a payload that
/// decodes to no command has no effects at all.
pub fn handle_inbound(payload: &[u8], audio: &AudioState, media_session: bool) -> (r: (
    Option<Command>,
    Effects,
))
    requires
        audio.wf(),
    ensures
        r.0 == spec_parse_inbound(payload@),
        r.1 == (match r.0 {
            Some(c) => spec_dispatch(c, *audio, media_session),
            None => no_effects(),
        }),
{
    match parse_inbound(payload) {
        Some(c) => {
            let e = dispatch(&c, audio, media_session);
            (Some(c), e)
        },
        None => (
            None,
            Effects {
                set_volume: None,
                set_mute: None,
                transport: None,
                shutdown: false,
                publish_status: false,
            },
        ),
    }
}

} // verus!
