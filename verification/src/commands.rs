//! Command routing, validation and dispatch.
//!
//! An inbound message names a command and carries named parameters. Routing
//! maps the command name to a closed enumeration; validation checks the
//! parameters the command requires; dispatch turns a validated command and
//! the current audio state into the exact set of device effects to perform.
//! Unknown commands and commands with missing or malformed parameters are
//! deliberately ignored: no effect, no status publish.

use vstd::prelude::*;
use crate::volume::{AudioState, spec_level_to_points, spec_step_points, level_to_points,
    step_points};

verus! {

/// The closed enumeration of command identifiers the device understands,
/// plus `Unknown` for every other identifier.
#[derive(Clone, Copy, Debug, PartialEq, Eq, Structural)]
pub enum CommandKind {
    SetVolume,
    Mute,
    VolumeRelative,
    MediaNext,
    MediaPrevious,
    MediaPause,
    MediaStop,
    MediaResume,
    OnOff,
    Unknown,
}

/// A validated command: the identifier together with the parameters it
/// requires, numeric ones in hundredths of a percentage point. `Invalid`
/// stands for a known command whose required parameter was absent or
/// malformed; `Unknown` for an identifier outside the table. Both are
/// dispatched as strict no-ops.
#[derive(Clone, Copy, Debug, PartialEq, Eq, Structural)]
pub enum Command {
    SetVolume { level_centi: i64 },
    Mute { mute: bool },
    VolumeRelative { steps_centi: i64 },
    MediaNext,
    MediaPrevious,
    MediaPause,
    MediaStop,
    MediaResume,
    OnOff { on: bool },
    Invalid,
    Unknown,
}

/// A media-transport request a command asks the media session for.
#[derive(Clone, Copy, Debug, PartialEq, Eq, Structural)]
pub enum TransportAction {
    Pause,
    Play,
    SkipNext,
    SkipPrevious,
}

/// The effects one dispatch decides on. At most one audio mutation, at most
/// one transport request, possibly a host shutdown request, and whether a
/// fresh status report must be published after the effects are applied.
#[derive(Clone, Copy, Debug, PartialEq, Eq, Structural)]
pub struct Effects {
    /// Set the output volume to this fraction, in basis points.
    pub set_volume: Option<u32>,
    /// Set the mute flag to this value.
    pub set_mute: Option<bool>,
    /// Ask the current media session for this transport action.
    pub transport: Option<TransportAction>,
    /// Request a host shutdown.
    pub shutdown: bool,
    /// Publish one fresh status snapshot after the effects are applied.
    pub publish_status: bool,
}

/// The dispatch outcome of a command that must be ignored.
pub open spec fn no_effects() -> Effects {
    (Effects {
        set_volume: None,
        set_mute: None,
        transport: None,
        shutdown: false,
        publish_status: false,
    })
}

/// The routing table: which command kind an identifier names.
pub open spec fn spec_route(name: Seq<char>) -> CommandKind {
    if name == "action.devices.commands.setVolume"@ {
        CommandKind::SetVolume
    } else if name == "action.devices.commands.mute"@ {
        CommandKind::Mute
    } else if name == "action.devices.commands.volumeRelative"@ {
        CommandKind::VolumeRelative
    } else if name == "action.devices.commands.mediaNext"@ {
        CommandKind::MediaNext
    } else if name == "action.devices.commands.mediaPrevious"@ {
        CommandKind::MediaPrevious
    } else if name == "action.devices.commands.mediaPause"@ {
        CommandKind::MediaPause
    } else if name == "action.devices.commands.mediaStop"@ {
        CommandKind::MediaStop
    } else if name == "action.devices.commands.mediaResume"@ {
        CommandKind::MediaResume
    } else if name == "action.devices.commands.OnOff"@ {
        CommandKind::OnOff
    } else {
        CommandKind::Unknown
    }
}

/// Map a command identifier to its kind. Every identifier outside the
/// table maps to `Unknown`.
pub fn route(name: &String) -> (k: CommandKind)
    ensures
        k == spec_route(name@),
{
    if *name == "action.devices.commands.setVolume".to_owned() {
        CommandKind::SetVolume
    } else if *name == "action.devices.commands.mute".to_owned() {
        CommandKind::Mute
    } else if *name == "action.devices.commands.volumeRelative".to_owned() {
        CommandKind::VolumeRelative
    } else if *name == "action.devices.commands.mediaNext".to_owned() {
        CommandKind::MediaNext
    } else if *name == "action.devices.commands.mediaPrevious".to_owned() {
        CommandKind::MediaPrevious
    } else if *name == "action.devices.commands.mediaPause".to_owned() {
        CommandKind::MediaPause
    } else if *name == "action.devices.commands.mediaStop".to_owned() {
        CommandKind::MediaStop
    } else if *name == "action.devices.commands.mediaResume".to_owned() {
        CommandKind::MediaResume
    } else if *name == "action.devices.commands.OnOff".to_owned() {
        CommandKind::OnOff
    } else {
        CommandKind::Unknown
    }
}

/// What a command kind becomes once its parameters are checked: `num` is
/// the numeric parameter the message carried (if any), in hundredths of a
/// percentage point, `flag` the boolean one. A kind whose required
/// parameter is missing becomes `Invalid`.
pub open spec fn spec_validate(kind: CommandKind, num: Option<i64>, flag: Option<bool>) -> Command {
    match kind {
        CommandKind::SetVolume => match num {
            Some(level_centi) => Command::SetVolume { level_centi },
            None => Command::Invalid,
        },
        CommandKind::Mute => match flag {
            Some(mute) => Command::Mute { mute },
            None => Command::Invalid,
        },
        CommandKind::VolumeRelative => match num {
            Some(steps_centi) => Command::VolumeRelative { steps_centi },
            None => Command::Invalid,
        },
        CommandKind::MediaNext => Command::MediaNext,
        CommandKind::MediaPrevious => Command::MediaPrevious,
        CommandKind::MediaPause => Command::MediaPause,
        CommandKind::MediaStop => Command::MediaStop,
        CommandKind::MediaResume => Command::MediaResume,
        CommandKind::OnOff => match flag {
            Some(on) => Command::OnOff { on },
            None => Command::Invalid,
        },
        CommandKind::Unknown => Command::Unknown,
    }
}

/// Check the parameters a command kind requires. `num` must hold the
/// numeric parameter extracted from the message (`volumeLevel` or
/// `relativeSteps`), in hundredths of a percentage point, `flag` the
/// boolean one (`mute` or `on`); `None` where the parameter was absent or
/// of the wrong type.
pub fn validate(kind: CommandKind, num: Option<i64>, flag: Option<bool>) -> (c: Command)
    ensures
        c == spec_validate(kind, num, flag),
{
    match kind {
        CommandKind::SetVolume => match num {
            Some(level_centi) => Command::SetVolume { level_centi },
            None => Command::Invalid,
        },
        CommandKind::Mute => match flag {
            Some(mute) => Command::Mute { mute },
            None => Command::Invalid,
        },
        CommandKind::VolumeRelative => match num {
            Some(steps_centi) => Command::VolumeRelative { steps_centi },
            None => Command::Invalid,
        },
        CommandKind::MediaNext => Command::MediaNext,
        CommandKind::MediaPrevious => Command::MediaPrevious,
        CommandKind::MediaPause => Command::MediaPause,
        CommandKind::MediaStop => Command::MediaStop,
        CommandKind::MediaResume => Command::MediaResume,
        CommandKind::OnOff => match flag {
            Some(on) => Command::OnOff { on },
            None => Command::Invalid,
        },
        CommandKind::Unknown => Command::Unknown,
    }
}

/// The dispatch table: the exact effects of a command, given the current
/// audio fraction (in basis points) and whether a media session is active.
/// Media-transport commands reach the session only when one is active, and
/// publish a status report exactly when they reached it. A power command
/// never publishes. Ignored commands have no effect at all.
pub open spec fn spec_dispatch(c: Command, audio: AudioState, media_session: bool) -> Effects {
    match c {
        Command::SetVolume { level_centi } => (Effects {
            set_volume: Some((spec_level_to_points(level_centi as int)) as u32),
            set_mute: None,
            transport: None,
            shutdown: false,
            publish_status: true,
        }),
        Command::Mute { mute } => (Effects {
            set_volume: None,
            set_mute: Some(mute),
            transport: None,
            shutdown: false,
            publish_status: true,
        }),
        Command::VolumeRelative { steps_centi } => (Effects {
            set_volume: Some((spec_step_points(audio.volume as int, steps_centi as int)) as u32),
            set_mute: None,
            transport: None,
            shutdown: false,
            publish_status: true,
        }),
        Command::MediaNext => spec_transport_effects(TransportAction::SkipNext, media_session),
        Command::MediaPrevious => spec_transport_effects(
            TransportAction::SkipPrevious,
            media_session,
        ),
        Command::MediaPause => spec_transport_effects(TransportAction::Pause, media_session),
        Command::MediaStop => spec_transport_effects(TransportAction::Pause, media_session),
        Command::MediaResume => spec_transport_effects(TransportAction::Play, media_session),
        Command::OnOff { on } => (Effects {
            set_volume: None,
            set_mute: None,
            transport: None,
            shutdown: !on,
            publish_status: false,
        }),
        Command::Invalid => no_effects(),
        Command::Unknown => no_effects(),
    }
}

/// The effects of a media-transport command: the request reaches the
/// session only when one is active, and a status report follows exactly
/// when it did.
pub open spec fn spec_transport_effects(action: TransportAction, media_session: bool) -> Effects {
    (Effects {
        set_volume: None,
        set_mute: None,
        transport: if media_session {
            Some(action)
        } else {
            None
        },
        shutdown: false,
        publish_status: media_session,
    })
}

/// Decide the effects of a validated command against the current audio
/// state. This is the whole routing core: the caller applies the returned
/// effects to the devices and, when `publish_status` is set, publishes one
/// fresh status snapshot.
pub fn dispatch(c: &Command, audio: &AudioState, media_session: bool) -> (e: Effects)
    requires
        audio.wf(),
    ensures
        e == spec_dispatch(*c, *audio, media_session),
{
    match c {
        Command::SetVolume { level_centi } => Effects {
            set_volume: Some(level_to_points(*level_centi)),
            set_mute: None,
            transport: None,
            shutdown: false,
            publish_status: true,
        },
        Command::Mute { mute } => Effects {
            set_volume: None,
            set_mute: Some(*mute),
            transport: None,
            shutdown: false,
            publish_status: true,
        },
        Command::VolumeRelative { steps_centi } => Effects {
            set_volume: Some(step_points(audio.volume, *steps_centi)),
            set_mute: None,
            transport: None,
            shutdown: false,
            publish_status: true,
        },
        Command::MediaNext => transport_effects(TransportAction::SkipNext, media_session),
        Command::MediaPrevious => transport_effects(TransportAction::SkipPrevious, media_session),
        Command::MediaPause => transport_effects(TransportAction::Pause, media_session),
        Command::MediaStop => transport_effects(TransportAction::Pause, media_session),
        Command::MediaResume => transport_effects(TransportAction::Play, media_session),
        Command::OnOff { on } => Effects {
            set_volume: None,
            set_mute: None,
            transport: None,
            shutdown: !*on,
            publish_status: false,
        },
        Command::Invalid => Effects {
            set_volume: None,
            set_mute: None,
            transport: None,
            shutdown: false,
            publish_status: false,
        },
        Command::Unknown => Effects {
            set_volume: None,
            set_mute: None,
            transport: None,
            shutdown: false,
            publish_status: false,
        },
    }
}

/// Build the effects of a media-transport command.
fn transport_effects(action: TransportAction, media_session: bool) -> (e: Effects)
    ensures
        e == spec_transport_effects(action, media_session),
{
    Effects {
        set_volume: None,
        set_mute: None,
        transport: if media_session {
            Some(action)
        } else {
            None
        },
        shutdown: false,
        publish_status: media_session,
    }
}

/// Whether a command, under the given media-session availability, performs
/// a device mutation: an audio mutation always goes through once the
/// parameters validated; a transport request goes through exactly when a
/// media session is active; power and ignored commands mutate nothing the
/// status report covers.
pub open spec fn spec_mutates(c: Command, media_session: bool) -> bool {
    match c {
        Command::SetVolume { .. } => true,
        Command::Mute { .. } => true,
        Command::VolumeRelative { .. } => true,
        Command::MediaNext => media_session,
        Command::MediaPrevious => media_session,
        Command::MediaPause => media_session,
        Command::MediaStop => media_session,
        Command::MediaResume => media_session,
        Command::OnOff { .. } => false,
        Command::Invalid => false,
        Command::Unknown => false,
    }
}

/// Dispatching an unknown command identifier produces zero effects and
/// zero published messages.
pub proof fn lemma_unknown_is_no_op(audio: AudioState, media_session: bool)
    ensures
        spec_dispatch(Command::Unknown, audio, media_session) == no_effects(),
{
}

/// A known command whose required parameter was absent or malformed
/// validates to `Invalid`, and dispatching it produces zero effects and
/// zero published messages. In particular a volume command without a
/// numeric level is a strict no-op.
pub proof fn lemma_invalid_is_no_op(flag: Option<bool>, audio: AudioState, media_session: bool)
    ensures
        spec_validate(CommandKind::SetVolume, None, flag) == Command::Invalid,
        spec_validate(CommandKind::VolumeRelative, None, flag) == Command::Invalid,
        spec_dispatch(Command::Invalid, audio, media_session) == no_effects(),
{
}

/// Exactly the mutating dispatches publish a status report: dispatch asks
/// for one status publish when and only when the command performed a
/// device mutation. A command that failed validation, an unknown command
/// and a power command publish nothing.
pub proof fn lemma_publish_iff_mutation(c: Command, audio: AudioState, media_session: bool)
    ensures
        spec_dispatch(c, audio, media_session).publish_status == spec_mutates(c, media_session),
{
}

} // verus!
