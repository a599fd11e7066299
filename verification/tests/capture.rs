use record_screen::capture::{
    preferred_audio_input, preferred_system_audio_input, resolve_audio_input_id, resolve_microphone_input_id, AudioInputKind,
    AudioInputOption, DEFAULT_AUDIO_INPUT_ID,
};

fn input(id: &str, label: &str, description: &str, kind: AudioInputKind) -> AudioInputOption {
    AudioInputOption { id: id.to_string(), label: label.to_string(), description: description.to_string(), kind }
}

#[test]
fn resolves_default_to_best_microphone_candidate() {
    let audio_inputs = vec![
        input(DEFAULT_AUDIO_INPUT_ID, "Default input", "System default microphone", AudioInputKind::Default),
        input("monitor.loopback", "Monitor of Built-in Audio", "Loopback output", AudioInputKind::System),
        input("usb-mic", "USB Microphone", "External USB microphone", AudioInputKind::Microphone),
    ];
    assert_eq!(resolve_audio_input_id(DEFAULT_AUDIO_INPUT_ID, &audio_inputs).as_deref(), Some("usb-mic"));
}

#[test]
fn preserves_explicit_audio_input_when_available() {
    let audio_inputs = vec![input("built-in", "Built-in Microphone", "Internal microphone", AudioInputKind::Microphone)];
    assert_eq!(resolve_audio_input_id("built-in", &audio_inputs).as_deref(), Some("built-in"));
}

#[test]
fn prefers_system_audio_when_requested() {
    let audio_inputs = vec![
        input("usb-mic", "USB Microphone", "External USB microphone", AudioInputKind::Microphone),
        input("alsa_output.monitor", "System audio", "Loopback monitor", AudioInputKind::System),
    ];
    assert_eq!(
        preferred_system_audio_input(&audio_inputs).map(|input| input.id.as_str()),
        Some("alsa_output.monitor")
    );
}

#[test]
fn resolves_microphone_input_away_from_system_sources() {
    let audio_inputs = vec![
        input(DEFAULT_AUDIO_INPUT_ID, "Default input", "System default", AudioInputKind::Default),
        input("loopback", "Stereo Mix", "System audio", AudioInputKind::System),
        input("usb-mic", "USB Microphone", "External microphone", AudioInputKind::Microphone),
    ];
    assert_eq!(resolve_microphone_input_id("loopback", &audio_inputs).as_deref(), Some("usb-mic"));
}

#[test]
fn unknown_explicit_input_is_not_resolved() {
    let audio_inputs = vec![input("built-in", "Built-in Microphone", "Internal microphone", AudioInputKind::Microphone)];
    assert_eq!(resolve_audio_input_id("missing", &audio_inputs), None);
    assert_eq!(resolve_audio_input_id("built-in", &[]), None);
}

#[test]
fn preferred_input_is_the_last_of_the_highest_scoring() {
    let inputs = vec![
        input("mic-a", "USB Microphone", "PipeWire source: USB Microphone", AudioInputKind::Microphone),
        input("mic-b", "USB Microphone", "PipeWire source: USB Microphone", AudioInputKind::Microphone),
        input("sink.monitor", "System audio · Speakers", "monitor", AudioInputKind::System),
    ];
    assert_eq!(preferred_audio_input(&inputs).map(|i| i.id.as_str()), Some("mic-b"));
    assert_eq!(preferred_system_audio_input(&inputs).map(|i| i.id.as_str()), Some("sink.monitor"));
    assert!(preferred_system_audio_input(&inputs[..2]).is_none());
}
