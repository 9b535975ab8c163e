//! The status snapshot.
//!
//! A snapshot is a point-in-time report of device truth: the output volume
//! as a whole percentage, the mute flag, an `on` flag that is always true
//! while the process runs, and — only when a media session is active — a
//! playback state collapsed to three protocol values.

use vstd::prelude::*;
use crate::volume::{AudioState, spec_report_percent, report_percent};

verus! {

/// The playback state as the media-transport provider reports it, reduced
/// to what the protocol distinguishes: playing, paused, or anything else.
#[derive(Clone, Copy, Debug, PartialEq, Eq, Structural)]
pub enum ProviderPlayback {
    Playing,
    Paused,
    Other,
}

/// The playback state the protocol carries.
#[derive(Clone, Copy, Debug, PartialEq, Eq, Structural)]
pub enum PlaybackState {
    Playing,
    Paused,
    Stopped,
}

/// An immutable status snapshot, constructed fresh on each report and then
/// encoded to the wire. `playback` is present exactly when a media session
/// was active at the time of the report.
#[derive(Clone, Copy, Debug, PartialEq, Eq, Structural)]
pub struct StatusSnapshot {
    /// Output volume, in whole percentage points of full scale.
    pub volume_percent: u32,
    /// Whether the output is muted.
    pub muted: bool,
    /// Always true while the process runs.
    pub on: bool,
    /// The playback state, when a media session is active.
    pub playback: Option<PlaybackState>,
}

/// How a provider playback answer collapses to the protocol value: playing
/// and paused map to themselves; any other provider state, and a failed
/// playback query, map to stopped.
pub open spec fn spec_playback_state(provider: Option<ProviderPlayback>) -> PlaybackState {
    match provider {
        Some(ProviderPlayback::Playing) => PlaybackState::Playing,
        Some(ProviderPlayback::Paused) => PlaybackState::Paused,
        _ => PlaybackState::Stopped,
    }
}

/// Collapse a provider playback answer (`None` when the query failed) to
/// the protocol playback state.
pub fn playback_state(provider: Option<ProviderPlayback>) -> (r: PlaybackState)
    ensures
        r == spec_playback_state(provider),
{
    match provider {
        Some(ProviderPlayback::Playing) => PlaybackState::Playing,
        Some(ProviderPlayback::Paused) => PlaybackState::Paused,
        _ => PlaybackState::Stopped,
    }
}

/// The snapshot a status report carries, as a function of the audio state,
/// whether a media session is active, and the provider's playback answer.
pub open spec fn spec_status(
    audio: AudioState,
    media_session: bool,
    provider: Option<ProviderPlayback>,
) -> StatusSnapshot {
    (StatusSnapshot {
        volume_percent: (spec_report_percent(audio.volume as int)) as u32,
        muted: audio.muted,
        on: true,
        playback: if media_session {
            Some(spec_playback_state(provider))
        } else {
            None
        },
    })
}

/// Build one fresh status snapshot. The volume is reported as a whole
/// percentage, `on` is always true, and `playback` is omitted entirely —
/// not defaulted — when no media session is active.
pub fn build_status(
    audio: &AudioState,
    media_session: bool,
    provider: Option<ProviderPlayback>,
) -> (s: StatusSnapshot)
    requires
        audio.wf(),
    ensures
        s == spec_status(*audio, media_session, provider),
        s.volume_percent <= 100,
{
    StatusSnapshot {
        volume_percent: report_percent(audio.volume),
        muted: audio.muted,
        on: true,
        playback: if media_session {
            Some(playback_state(provider))
        } else {
            None
        },
    }
}

/// The snapshot omits `playback` exactly when no media session is active,
/// and maps every provider state outside playing and paused — including a
/// failed playback query — to stopped.
pub proof fn lemma_playback_presence(
    audio: AudioState,
    media_session: bool,
    provider: Option<ProviderPlayback>,
)
    ensures
        spec_status(audio, media_session, provider).playback is Some <==> media_session,
        spec_status(audio, true, Some(ProviderPlayback::Other)).playback == Some(
            PlaybackState::Stopped,
        ),
        spec_status(audio, true, None).playback == Some(PlaybackState::Stopped),
{
}

} // verus!
