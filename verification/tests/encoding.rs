use pc_control::encode::{
    action_topic, announcement_json, dec_string, device_descriptor, discover_topic, status_json,
    status_topic,
};
use pc_control::status::{build_status, playback_state, PlaybackState, ProviderPlayback, StatusSnapshot};
use pc_control::volume::AudioState;

#[test]
fn decimal_rendering_is_exact() {
    assert_eq!(dec_string(0), "0");
    assert_eq!(dec_string(7), "7");
    assert_eq!(dec_string(10), "10");
    assert_eq!(dec_string(36), "36");
    assert_eq!(dec_string(100), "100");
    assert_eq!(dec_string(4294967295), "4294967295");
}

#[test]
fn status_json_without_media_session_omits_playback_state() {
    let snap = build_status(&AudioState { volume: 5000, muted: false }, false, None);
    let text = status_json(&snap);
    assert_eq!(text, "{\"currentVolume\":50,\"isMuted\":false,\"on\":true}");
    let v: serde_json::Value = serde_json::from_str(&text).unwrap();
    assert!(v.get("playbackState").is_none());
    assert_eq!(v["currentVolume"].as_i64(), Some(50));
    assert_eq!(v["isMuted"].as_bool(), Some(false));
    assert_eq!(v["on"].as_bool(), Some(true));
}

#[test]
fn status_json_with_media_session_carries_playback_state() {
    let snap = build_status(
        &AudioState { volume: 3649, muted: true },
        true,
        Some(ProviderPlayback::Playing),
    );
    let text = status_json(&snap);
    assert_eq!(
        text,
        "{\"currentVolume\":36,\"isMuted\":true,\"on\":true,\"playbackState\":\"PLAYING\"}"
    );
}

#[test]
fn unrecognized_provider_states_normalize_to_stopped() {
    assert_eq!(playback_state(Some(ProviderPlayback::Playing)), PlaybackState::Playing);
    assert_eq!(playback_state(Some(ProviderPlayback::Paused)), PlaybackState::Paused);
    assert_eq!(playback_state(Some(ProviderPlayback::Other)), PlaybackState::Stopped);
    assert_eq!(playback_state(None), PlaybackState::Stopped);

    let snap = build_status(&AudioState { volume: 0, muted: false }, true, None);
    assert_eq!(snap.playback, Some(PlaybackState::Stopped));
    let text = status_json(&snap);
    assert_eq!(
        text,
        "{\"currentVolume\":0,\"isMuted\":false,\"on\":true,\"playbackState\":\"STOPPED\"}"
    );
}

#[test]
fn paused_snapshot_renders_the_paused_name() {
    let snap = StatusSnapshot {
        volume_percent: 100,
        muted: false,
        on: true,
        playback: Some(PlaybackState::Paused),
    };
    let text = status_json(&snap);
    assert_eq!(
        text,
        "{\"currentVolume\":100,\"isMuted\":false,\"on\":true,\"playbackState\":\"PAUSED\"}"
    );
}

#[test]
fn topics_are_parameterized_by_user_and_device() {
    assert_eq!(action_topic("1", "15617999"), "/ada/1/15617999/action");
    assert_eq!(status_topic("1", "15617999"), "/ada/1/15617999/status");
    assert_eq!(action_topic("u7", "dev"), "/ada/u7/dev/action");
    assert_eq!(discover_topic(), "/ada/discover");
}

#[test]
fn announcement_is_valid_json_with_the_device_descriptor() {
    let text = announcement_json("1", "15617999", "PC");
    let v: serde_json::Value = serde_json::from_str(&text).unwrap();
    assert_eq!(v["deviceId"].as_str(), Some("15617999"));
    assert_eq!(v["userId"].as_str(), Some("1"));
    let device = &v["device"];
    assert_eq!(device["id"].as_str(), Some("15617999"));
    assert_eq!(device["type"].as_str(), Some("action.devices.types.REMOTECONTROL"));
    assert_eq!(device["name"]["name"].as_str(), Some("PC"));
    assert_eq!(device["willReportState"].as_bool(), Some(true));
    let traits = device["traits"].as_array().unwrap();
    assert_eq!(traits.len(), 4);
    assert_eq!(traits[0].as_str(), Some("action.devices.traits.OnOff"));
    assert_eq!(traits[1].as_str(), Some("action.devices.traits.Volume"));
    assert_eq!(traits[2].as_str(), Some("action.devices.traits.TransportControl"));
    assert_eq!(traits[3].as_str(), Some("action.devices.traits.MediaState"));
    let attrs = &device["attributes"];
    assert_eq!(attrs["supportPlaybackState"].as_bool(), Some(true));
    assert_eq!(attrs["volumeMaxLevel"].as_i64(), Some(100));
    assert_eq!(attrs["volumeCanMuteAndUnmute"].as_bool(), Some(true));
    assert_eq!(attrs["levelStepSize"].as_i64(), Some(1));
    assert_eq!(attrs["commandOnlyVolume"].as_bool(), Some(false));
    assert_eq!(attrs["volumeDefaultPercentage"].as_i64(), Some(36));
    let transport = attrs["transportControlSupportedCommands"].as_array().unwrap();
    assert_eq!(transport.len(), 5);
    assert_eq!(transport[0].as_str(), Some("NEXT"));
    assert_eq!(transport[4].as_str(), Some("RESUME"));
    let info = &device["deviceInfo"];
    assert_eq!(info["manufacturer"].as_str(), Some("Zwisler"));
    assert_eq!(info["model"].as_str(), Some("rust-pc-control"));
    assert_eq!(info["hwVersion"].as_str(), Some("1.0"));
    assert_eq!(info["swVersion"].as_str(), Some("1.0"));
}

#[test]
fn device_descriptor_alone_is_valid_json() {
    let text = device_descriptor("dev42", "Desk");
    let v: serde_json::Value = serde_json::from_str(&text).unwrap();
    assert_eq!(v["id"].as_str(), Some("dev42"));
    assert_eq!(v["name"]["name"].as_str(), Some("Desk"));
}
