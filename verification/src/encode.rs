//! Wire encoding: the outbound JSON texts and the bus topics.
//!
//! The status snapshot and the startup announcement are encoded by hand so
//! that the exact text published on the bus is pinned down, character for
//! character, by the specifications here.

use vstd::prelude::*;
use crate::status::{PlaybackState, StatusSnapshot};

verus! {

/// The decimal digit character for a value below ten.
pub open spec fn spec_digit(d: int) -> char {
    if d == 0 {
        '0'
    } else if d == 1 {
        '1'
    } else if d == 2 {
        '2'
    } else if d == 3 {
        '3'
    } else if d == 4 {
        '4'
    } else if d == 5 {
        '5'
    } else if d == 6 {
        '6'
    } else if d == 7 {
        '7'
    } else if d == 8 {
        '8'
    } else {
        '9'
    }
}

/// The decimal representation of a number, most significant digit first,
/// with no leading zeros (a single zero for zero itself).
pub open spec fn spec_dec(n: nat) -> Seq<char>
    decreases n,
{
    if n < 10 {
        seq![spec_digit(n as int)]
    } else {
        spec_dec(n / 10) + seq![spec_digit((n % 10) as int)]
    }
}

/// The one-character text of a decimal digit.
fn digit_str(d: u32) -> (r: &'static str)
    requires
        d < 10,
    ensures
        r@ == seq![spec_digit(d as int)],
{
    proof {
        reveal_strlit("0");
        reveal_strlit("1");
        reveal_strlit("2");
        reveal_strlit("3");
        reveal_strlit("4");
        reveal_strlit("5");
        reveal_strlit("6");
        reveal_strlit("7");
        reveal_strlit("8");
        reveal_strlit("9");
    }
    let r: &'static str = match d {
        0 => "0",
        1 => "1",
        2 => "2",
        3 => "3",
        4 => "4",
        5 => "5",
        6 => "6",
        7 => "7",
        8 => "8",
        _ => "9",
    };
    proof {
        assert(r@ =~= seq![spec_digit(d as int)]);
    }
    r
}

/// Render a number in decimal.
pub fn dec_string(n: u32) -> (r: String)
    ensures
        r@ == spec_dec(n as nat),
    decreases n,
{
    if n < 10 {
        digit_str(n).to_owned()
    } else {
        let mut s = dec_string(n / 10);
        s.append(digit_str(n % 10));
        proof {
            assert(s@ =~= spec_dec(n as nat));
        }
        s
    }
}

/// The JSON text of a boolean.
pub open spec fn spec_bool_text(b: bool) -> Seq<char> {
    if b {
        "true"@
    } else {
        "false"@
    }
}

/// Render a boolean as JSON.
fn bool_str(b: bool) -> (r: &'static str)
    ensures
        r@ == spec_bool_text(b),
{
    if b {
        "true"
    } else {
        "false"
    }
}

/// The protocol name of a playback state.
pub open spec fn spec_playback_name(p: PlaybackState) -> Seq<char> {
    match p {
        PlaybackState::Playing => "PLAYING"@,
        PlaybackState::Paused => "PAUSED"@,
        PlaybackState::Stopped => "STOPPED"@,
    }
}

/// Render the protocol name of a playback state.
fn playback_name(p: PlaybackState) -> (r: &'static str)
    ensures
        r@ == spec_playback_name(p),
{
    match p {
        PlaybackState::Playing => "PLAYING",
        PlaybackState::Paused => "PAUSED",
        PlaybackState::Stopped => "STOPPED",
    }
}

/// The exact JSON text of a status snapshot. The `playbackState` member is
/// present exactly when the snapshot carries a playback state.
pub open spec fn spec_status_json(s: StatusSnapshot) -> Seq<char> {
    "{\"currentVolume\":"@ + spec_dec(s.volume_percent as nat) + ",\"isMuted\":"@
        + spec_bool_text(s.muted) + ",\"on\":"@ + spec_bool_text(s.on) + (match s.playback {
        Some(p) => ",\"playbackState\":\""@ + spec_playback_name(p) + "\""@,
        None => Seq::<char>::empty(),
    }) + "}"@
}

/// Encode a status snapshot as the JSON object published on the status
/// topic.
pub fn status_json(s: &StatusSnapshot) -> (r: String)
    ensures
        r@ == spec_status_json(*s),
{
    let mut out = "{\"currentVolume\":".to_owned();
    out.append(dec_string(s.volume_percent).as_str());
    out.append(",\"isMuted\":");
    out.append(bool_str(s.muted));
    out.append(",\"on\":");
    out.append(bool_str(s.on));
    match s.playback {
        Some(p) => {
            out.append(",\"playbackState\":\"");
            out.append(playback_name(p));
            out.append("\"");
        },
        None => {},
    }
    out.append("}");
    proof {
        assert(out@ =~= spec_status_json(*s));
    }
    out
}

/// The topic on which inbound commands for the device arrive.
pub open spec fn spec_action_topic(user: Seq<char>, device: Seq<char>) -> Seq<char> {
    "/ada/"@ + user + "/"@ + device + "/action"@
}

/// Format the inbound command topic for a user and device.
pub fn action_topic(user: &str, device: &str) -> (r: String)
    ensures
        r@ == spec_action_topic(user@, device@),
{
    let mut out = "/ada/".to_owned();
    out.append(user);
    out.append("/");
    out.append(device);
    out.append("/action");
    proof {
        assert(out@ =~= spec_action_topic(user@, device@));
    }
    out
}

/// The topic on which status snapshots for the device are published.
pub open spec fn spec_status_topic(user: Seq<char>, device: Seq<char>) -> Seq<char> {
    "/ada/"@ + user + "/"@ + device + "/status"@
}

/// Format the outbound status topic for a user and device.
pub fn status_topic(user: &str, device: &str) -> (r: String)
    ensures
        r@ == spec_status_topic(user@, device@),
{
    let mut out = "/ada/".to_owned();
    out.append(user);
    out.append("/");
    out.append(device);
    out.append("/status");
    proof {
        assert(out@ =~= spec_status_topic(user@, device@));
    }
    out
}

/// The topic on which the startup announcement is published.
pub fn discover_topic() -> (r: String)
    ensures
        r@ == "/ada/discover"@,
{
    "/ada/discover".to_owned()
}

/// The constant middle of the device descriptor: everything between the
/// device id and the device name.
pub open spec fn spec_device_descriptor_middle() -> Seq<char> {
    "\",\"type\":\"action.devices.types.REMOTECONTROL\",\"traits\":[\"action.devices.traits.OnOff\",\"action.devices.traits.Volume\",\"action.devices.traits.TransportControl\",\"action.devices.traits.MediaState\"],\"name\":{\"name\":\""@
}

/// The constant tail of the device descriptor: the capability attributes
/// and the device information, after the device name.
pub open spec fn spec_device_descriptor_tail() -> Seq<char> {
    "\"},\"willReportState\":true,\"attributes\":{\"supportPlaybackState\":true,\"volumeMaxLevel\":100,\"volumeCanMuteAndUnmute\":true,\"levelStepSize\":1,\"commandOnlyVolume\":false,\"volumeDefaultPercentage\":36,\"transportControlSupportedCommands\":[\"NEXT\",\"PREVIOUS\",\"PAUSE\",\"STOP\",\"RESUME\"]},\"deviceInfo\":{\"manufacturer\":\"Zwisler\",\"model\":\"rust-pc-control\",\"hwVersion\":\"1.0\",\"swVersion\":\"1.0\"}}"@
}

/// The exact JSON text of the static device descriptor for a device id and
/// a display name: identity, capability traits, attribute ranges and device
/// information.
pub open spec fn spec_device_descriptor(device: Seq<char>, name: Seq<char>) -> Seq<char> {
    "{\"id\":\""@ + device + spec_device_descriptor_middle() + name
        + spec_device_descriptor_tail()
}

/// Encode the static device descriptor.
pub fn device_descriptor(device: &str, name: &str) -> (r: String)
    ensures
        r@ == spec_device_descriptor(device@, name@),
{
    let mut out = "{\"id\":\"".to_owned();
    out.append(device);
    out.append(
        "\",\"type\":\"action.devices.types.REMOTECONTROL\",\"traits\":[\"action.devices.traits.OnOff\",\"action.devices.traits.Volume\",\"action.devices.traits.TransportControl\",\"action.devices.traits.MediaState\"],\"name\":{\"name\":\"",
    );
    out.append(name);
    out.append(
        "\"},\"willReportState\":true,\"attributes\":{\"supportPlaybackState\":true,\"volumeMaxLevel\":100,\"volumeCanMuteAndUnmute\":true,\"levelStepSize\":1,\"commandOnlyVolume\":false,\"volumeDefaultPercentage\":36,\"transportControlSupportedCommands\":[\"NEXT\",\"PREVIOUS\",\"PAUSE\",\"STOP\",\"RESUME\"]},\"deviceInfo\":{\"manufacturer\":\"Zwisler\",\"model\":\"rust-pc-control\",\"hwVersion\":\"1.0\",\"swVersion\":\"1.0\"}}",
    );
    proof {
        assert(out@ =~= spec_device_descriptor(device@, name@));
    }
    out
}

/// The exact JSON text of the startup announcement: the device and user
/// identity together with the static device descriptor.
pub open spec fn spec_announcement_json(
    user: Seq<char>,
    device: Seq<char>,
    name: Seq<char>,
) -> Seq<char> {
    "{\"deviceId\":\""@ + device + "\",\"userId\":\""@ + user + "\",\"device\":"@
        + spec_device_descriptor(device, name) + "}"@
}

/// Encode the announcement published once at startup, retained on the
/// discovery topic.
pub fn announcement_json(user: &str, device: &str, name: &str) -> (r: String)
    ensures
        r@ == spec_announcement_json(user@, device@, name@),
{
    let mut out = "{\"deviceId\":\"".to_owned();
    out.append(device);
    out.append("\",\"userId\":\"");
    out.append(user);
    out.append("\",\"device\":");
    out.append(device_descriptor(device, name).as_str());
    out.append("}");
    proof {
        assert(out@ =~= spec_announcement_json(user@, device@, name@));
    }
    out
}

} // verus!
