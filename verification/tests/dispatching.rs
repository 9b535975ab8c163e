use pc_control::commands::{dispatch, route, validate, Command, CommandKind, Effects, TransportAction};
use pc_control::inbound::{handle_inbound, parse_inbound};
use pc_control::volume::AudioState;

fn audio(volume: u32, muted: bool) -> AudioState {
    AudioState { volume, muted }
}

fn no_effects() -> Effects {
    Effects {
        set_volume: None,
        set_mute: None,
        transport: None,
        shutdown: false,
        publish_status: false,
    }
}

#[test]
fn routing_table_maps_every_known_identifier() {
    assert_eq!(route(&"action.devices.commands.setVolume".to_string()), CommandKind::SetVolume);
    assert_eq!(route(&"action.devices.commands.mute".to_string()), CommandKind::Mute);
    assert_eq!(
        route(&"action.devices.commands.volumeRelative".to_string()),
        CommandKind::VolumeRelative
    );
    assert_eq!(route(&"action.devices.commands.mediaNext".to_string()), CommandKind::MediaNext);
    assert_eq!(
        route(&"action.devices.commands.mediaPrevious".to_string()),
        CommandKind::MediaPrevious
    );
    assert_eq!(route(&"action.devices.commands.mediaPause".to_string()), CommandKind::MediaPause);
    assert_eq!(route(&"action.devices.commands.mediaStop".to_string()), CommandKind::MediaStop);
    assert_eq!(route(&"action.devices.commands.mediaResume".to_string()), CommandKind::MediaResume);
    assert_eq!(route(&"action.devices.commands.OnOff".to_string()), CommandKind::OnOff);
    assert_eq!(route(&"action.devices.commands.dock".to_string()), CommandKind::Unknown);
    assert_eq!(route(&"".to_string()), CommandKind::Unknown);
}

#[test]
fn unknown_command_has_zero_effects() {
    let payload = b"{\"command\":\"action.devices.commands.dock\",\"params\":{}}";
    let (cmd, effects) = handle_inbound(payload, &audio(5000, false), true);
    assert_eq!(cmd, Some(Command::Unknown));
    assert_eq!(effects, no_effects());
}

#[test]
fn set_volume_with_non_numeric_level_has_zero_effects() {
    let payload =
        b"{\"command\":\"action.devices.commands.setVolume\",\"params\":{\"volumeLevel\":\"fifty\"}}";
    let (cmd, effects) = handle_inbound(payload, &audio(5000, false), true);
    assert_eq!(cmd, Some(Command::Invalid));
    assert_eq!(effects, no_effects());
}

#[test]
fn set_volume_with_missing_level_has_zero_effects() {
    let payload = b"{\"command\":\"action.devices.commands.setVolume\",\"params\":{}}";
    let (cmd, effects) = handle_inbound(payload, &audio(5000, false), true);
    assert_eq!(cmd, Some(Command::Invalid));
    assert_eq!(effects, no_effects());

    let payload2 = b"{\"command\":\"action.devices.commands.setVolume\"}";
    let (cmd2, effects2) = handle_inbound(payload2, &audio(5000, false), true);
    assert_eq!(cmd2, Some(Command::Invalid));
    assert_eq!(effects2, no_effects());
}

#[test]
fn mute_with_missing_flag_has_zero_effects() {
    let payload = b"{\"command\":\"action.devices.commands.mute\",\"params\":{\"mute\":1}}";
    let (cmd, effects) = handle_inbound(payload, &audio(5000, false), true);
    assert_eq!(cmd, Some(Command::Invalid));
    assert_eq!(effects, no_effects());
}

#[test]
fn malformed_payloads_decode_to_nothing() {
    assert_eq!(parse_inbound(b"not json at all"), None);
    assert_eq!(parse_inbound(b"{\"params\":{}}"), None);
    assert_eq!(parse_inbound(b"{\"command\":42}"), None);
    assert_eq!(parse_inbound(b""), None);
}

#[test]
fn exactly_the_mutating_commands_publish_status() {
    let st = audio(5000, false);
    // audio mutations always publish once validated
    assert!(dispatch(&Command::SetVolume { level_centi: 3000 }, &st, false).publish_status);
    assert!(dispatch(&Command::Mute { mute: true }, &st, false).publish_status);
    assert!(dispatch(&Command::VolumeRelative { steps_centi: -1000 }, &st, false).publish_status);
    // transport requests publish exactly when a session is active
    assert!(dispatch(&Command::MediaPause, &st, true).publish_status);
    assert!(!dispatch(&Command::MediaPause, &st, false).publish_status);
    assert!(dispatch(&Command::MediaResume, &st, true).publish_status);
    assert!(!dispatch(&Command::MediaResume, &st, false).publish_status);
    // power, failed validation and unknown commands never publish
    assert!(!dispatch(&Command::OnOff { on: false }, &st, true).publish_status);
    assert!(!dispatch(&Command::Invalid, &st, true).publish_status);
    assert!(!dispatch(&Command::Unknown, &st, true).publish_status);
}

#[test]
fn set_volume_scenario_sets_half_and_publishes() {
    let payload = b"{\"command\":\"action.devices.commands.setVolume\",\"params\":{\"volumeLevel\":50}}";
    let (cmd, effects) = handle_inbound(payload, &audio(2000, false), false);
    assert_eq!(cmd, Some(Command::SetVolume { level_centi: 5000 }));
    assert_eq!(effects.set_volume, Some(5000));
    assert_eq!(effects.set_mute, None);
    assert_eq!(effects.transport, None);
    assert!(!effects.shutdown);
    assert!(effects.publish_status);
}

#[test]
fn mute_scenario_sets_the_flag_and_publishes() {
    let payload = b"{\"command\":\"action.devices.commands.mute\",\"params\":{\"mute\":true}}";
    let (cmd, effects) = handle_inbound(payload, &audio(2000, false), false);
    assert_eq!(cmd, Some(Command::Mute { mute: true }));
    assert_eq!(effects.set_mute, Some(true));
    assert_eq!(effects.set_volume, None);
    assert!(effects.publish_status);
}

#[test]
fn power_off_scenario_requests_shutdown_without_status() {
    let payload = b"{\"command\":\"action.devices.commands.OnOff\",\"params\":{\"on\":false}}";
    let (cmd, effects) = handle_inbound(payload, &audio(2000, false), true);
    assert_eq!(cmd, Some(Command::OnOff { on: false }));
    assert!(effects.shutdown);
    assert!(!effects.publish_status);

    let payload_on = b"{\"command\":\"action.devices.commands.OnOff\",\"params\":{\"on\":true}}";
    let (cmd_on, effects_on) = handle_inbound(payload_on, &audio(2000, false), true);
    assert_eq!(cmd_on, Some(Command::OnOff { on: true }));
    assert_eq!(effects_on, no_effects());
}

#[test]
fn relative_volume_scenario_moves_from_current_state() {
    let payload =
        b"{\"command\":\"action.devices.commands.volumeRelative\",\"params\":{\"relativeSteps\":-20}}";
    let (cmd, effects) = handle_inbound(payload, &audio(5000, false), false);
    assert_eq!(cmd, Some(Command::VolumeRelative { steps_centi: -2000 }));
    assert_eq!(effects.set_volume, Some(3000));
    assert!(effects.publish_status);
}

#[test]
fn out_of_range_volume_levels_clamp_to_full_scale_and_publish() {
    let payload =
        b"{\"command\":\"action.devices.commands.setVolume\",\"params\":{\"volumeLevel\":1234567}}";
    let (cmd, effects) = handle_inbound(payload, &audio(2000, false), false);
    assert_eq!(cmd, Some(Command::SetVolume { level_centi: 100000000 }));
    assert_eq!(effects.set_volume, Some(10000));
    assert!(effects.publish_status);

    let payload_neg =
        b"{\"command\":\"action.devices.commands.setVolume\",\"params\":{\"volumeLevel\":-7}}";
    let (cmd_neg, effects_neg) = handle_inbound(payload_neg, &audio(2000, false), false);
    assert_eq!(cmd_neg, Some(Command::SetVolume { level_centi: -700 }));
    assert_eq!(effects_neg.set_volume, Some(0));
    assert!(effects_neg.publish_status);
}

#[test]
fn fractional_volume_levels_keep_their_hundredths() {
    let payload =
        b"{\"command\":\"action.devices.commands.setVolume\",\"params\":{\"volumeLevel\":50.5}}";
    let (cmd, effects) = handle_inbound(payload, &audio(2000, false), false);
    assert_eq!(cmd, Some(Command::SetVolume { level_centi: 5050 }));
    assert_eq!(effects.set_volume, Some(5050));

    let payload2 =
        b"{\"command\":\"action.devices.commands.volumeRelative\",\"params\":{\"relativeSteps\":-0.5}}";
    let (cmd2, effects2) = handle_inbound(payload2, &audio(5000, false), false);
    assert_eq!(cmd2, Some(Command::VolumeRelative { steps_centi: -50 }));
    assert_eq!(effects2.set_volume, Some(4950));
}

#[test]
fn transport_commands_reach_the_session_only_when_active() {
    let st = audio(5000, false);
    assert_eq!(dispatch(&Command::MediaNext, &st, true).transport, Some(TransportAction::SkipNext));
    assert_eq!(
        dispatch(&Command::MediaPrevious, &st, true).transport,
        Some(TransportAction::SkipPrevious)
    );
    assert_eq!(dispatch(&Command::MediaPause, &st, true).transport, Some(TransportAction::Pause));
    assert_eq!(dispatch(&Command::MediaStop, &st, true).transport, Some(TransportAction::Pause));
    assert_eq!(dispatch(&Command::MediaResume, &st, true).transport, Some(TransportAction::Play));
    assert_eq!(dispatch(&Command::MediaNext, &st, false).transport, None);
    assert_eq!(dispatch(&Command::MediaStop, &st, false).transport, None);
}

#[test]
fn validation_checks_the_required_parameter_only() {
    assert_eq!(
        validate(CommandKind::SetVolume, Some(70), None),
        Command::SetVolume { level_centi: 70 }
    );
    assert_eq!(validate(CommandKind::SetVolume, None, Some(true)), Command::Invalid);
    assert_eq!(validate(CommandKind::Mute, None, Some(false)), Command::Mute { mute: false });
    assert_eq!(validate(CommandKind::Mute, Some(1), None), Command::Invalid);
    assert_eq!(validate(CommandKind::OnOff, None, None), Command::Invalid);
    assert_eq!(validate(CommandKind::MediaNext, None, None), Command::MediaNext);
    assert_eq!(validate(CommandKind::Unknown, Some(3), Some(true)), Command::Unknown);
}
