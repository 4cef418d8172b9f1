use audio_engine::config::StreamConfig;
use audio_engine::devices::{
    get_current_output_device, get_input_devices, get_output_devices, AudioDevices, DeviceInfo,
};
use audio_engine::errors::AudioError;
use audio_engine::format::SampleFormat;

fn dev(name: &str, sample_rate: u32, channels: u16, format: SampleFormat) -> DeviceInfo {
    DeviceInfo {
        name: name.to_string(),
        config: StreamConfig {
            sample_rate,
            channels,
            format,
        },
    }
}

fn registry() -> AudioDevices {
    let inputs = vec![
        dev("builtin mic", 44100, 1, SampleFormat::F32),
        dev("usb mic", 48000, 2, SampleFormat::I16),
    ];
    let outputs = vec![
        dev("speakers", 44100, 2, SampleFormat::F32),
        dev("headphones", 96000, 2, SampleFormat::I32),
    ];
    AudioDevices::new(inputs, outputs, Some(0), Some(0)).unwrap()
}

#[test]
fn startup_selects_the_default_devices_and_their_configs() {
    let d = registry();
    assert_eq!(d.selected_input, 0);
    assert_eq!(d.selected_output, 0);
    assert_eq!(d.input_config, d.inputs[0].config);
    assert_eq!(d.output_config, d.outputs[0].config);
}

#[test]
fn startup_without_a_default_device_is_fatal() {
    let inputs = vec![dev("builtin mic", 44100, 1, SampleFormat::F32)];
    let outputs = vec![dev("speakers", 44100, 2, SampleFormat::F32)];
    let r = AudioDevices::new(inputs.clone(), outputs.clone(), None, Some(0));
    assert!(matches!(r, Err(AudioError::NoDefaultDevice)));
    let r = AudioDevices::new(inputs, outputs, Some(0), None);
    assert!(matches!(r, Err(AudioError::NoDefaultDevice)));
}

#[test]
fn selecting_an_enumerated_device_updates_the_paired_config() {
    let mut d = registry();
    let r = d.select_output_device(&"headphones".to_string());
    assert!(r.is_ok());
    assert_eq!(d.selected_output, 1);
    assert_eq!(d.output_config, d.outputs[1].config);
    assert_eq!(d.output_config.sample_rate, 96000);
    // The capture side is untouched.
    assert_eq!(d.selected_input, 0);
    assert_eq!(d.input_config, d.inputs[0].config);
}

#[test]
fn selecting_an_enumerated_input_device_updates_the_paired_config() {
    let mut d = registry();
    let r = d.select_input_device(&"usb mic".to_string());
    assert!(r.is_ok());
    assert_eq!(d.selected_input, 1);
    assert_eq!(d.input_config, d.inputs[1].config);
    assert_eq!(d.input_config.format, SampleFormat::I16);
    assert_eq!(d.selected_output, 0);
}

#[test]
fn selecting_a_missing_device_fails_and_leaves_the_selection_untouched() {
    let mut d = registry();
    let before_selected = d.selected_output;
    let before_config = d.output_config;
    let r = d.select_output_device(&"bluetooth".to_string());
    assert_eq!(r, Err(AudioError::DeviceNotFound));
    assert_eq!(d.selected_output, before_selected);
    assert_eq!(d.output_config, before_config);

    let r = d.select_input_device(&"line in".to_string());
    assert_eq!(r, Err(AudioError::DeviceNotFound));
    assert_eq!(d.selected_input, 0);
}

#[test]
fn device_listings_pair_value_and_label_in_enumeration_order() {
    let d = registry();
    let ins = get_input_devices(&d);
    assert_eq!(ins.len(), 2);
    assert_eq!(ins[0].value, "builtin mic");
    assert_eq!(ins[0].label, "builtin mic");
    assert_eq!(ins[1].value, "usb mic");
    assert_eq!(ins[1].label, "usb mic");

    let outs = get_output_devices(&d);
    assert_eq!(outs.len(), 2);
    assert_eq!(outs[0].value, "speakers");
    assert_eq!(outs[1].value, "headphones");
}

#[test]
fn current_output_device_reports_the_selection() {
    let mut d = registry();
    let cur = get_current_output_device(&d);
    assert_eq!(cur.value, "speakers");
    assert_eq!(cur.label, "speakers");
    d.select_output_device(&"headphones".to_string()).unwrap();
    let cur = get_current_output_device(&d);
    assert_eq!(cur.value, "headphones");
}

#[test]
fn device_not_found_renders_a_message() {
    assert_eq!(
        AudioError::DeviceNotFound.message(),
        "no audio device with that name exists"
    );
    assert_eq!(
        AudioError::NoDefaultDevice.message(),
        "no default audio device is available"
    );
    assert_eq!(
        AudioError::DeviceEnumerationError.message(),
        "audio devices could not be enumerated"
    );
    assert_eq!(
        AudioError::StreamSetupError.message(),
        "the audio stream could not be built"
    );
    assert_eq!(
        AudioError::RecordingFileError.message(),
        "the recording file could not be created"
    );
}
