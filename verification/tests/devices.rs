use ten_four::audio::{choose_input, InputChoice, SampleFramer, parec_args, AudioError, AudioRecorder, InputConfig, TARGET_SAMPLE_RATE};
use ten_four::inject::{ydotool_socket_path, Injector};

#[test]
fn named_device_records_at_16k_mono() {
    let cfg = InputConfig { sample_rate: 48000, channels: 2 };
    let rec = AudioRecorder::new(Some("My Headset".to_string()), Some(cfg)).unwrap();
    assert_eq!(rec.sample_rate(), 16000);
    assert_eq!(rec.sample_rate(), TARGET_SAMPLE_RATE);
    assert_eq!(rec.channels(), 1);
    assert_eq!(rec.device(), Some("My Headset"));
}

#[test]
fn system_input_uses_its_config() {
    let cfg = InputConfig { sample_rate: 44100, channels: 2 };
    let rec = AudioRecorder::new(None, Some(cfg)).unwrap();
    assert_eq!(rec.sample_rate(), 44100);
    assert_eq!(rec.channels(), 2);
    assert_eq!(rec.device(), None);
}

#[test]
fn no_input_device_is_an_error() {
    let r = AudioRecorder::new(None, None);
    assert!(matches!(r, Err(AudioError::NoInputDevice)));
    assert_eq!(
        AudioError::NoInputDevice.message(),
        "No usable audio input device found. Check your microphone is connected.\nList devices with: arecord -l"
    );
}

#[test]
fn input_config_choice() {
    let a = InputConfig { sample_rate: 48000, channels: 2 };
    let b = InputConfig { sample_rate: 16000, channels: 1 };
    let c = InputConfig { sample_rate: 44100, channels: 1 };
    assert_eq!(choose_input(Some(a), &vec![Some(b)]), Some(InputChoice::Default));
    assert_eq!(choose_input(None, &vec![None, Some(b), Some(c)]), Some(InputChoice::Device(1)));
    assert_eq!(choose_input(None, &vec![Some(c), Some(b)]), Some(InputChoice::Device(0)));
    assert_eq!(choose_input(None, &vec![None, None]), None);
    assert_eq!(choose_input(None, &vec![]), None);
}

#[test]
fn parec_arguments() {
    assert_eq!(
        parec_args("alsa_input.usb"),
        vec!["--device=alsa_input.usb", "--format=float32le", "--rate=16000", "--channels=1", "--raw"]
    );
}

#[test]
fn injector_from_name() {
    assert_eq!(Injector::from_str("xdotool"), Injector::Xdotool);
    assert_eq!(Injector::from_str("XDOTOOL"), Injector::Xdotool);
    assert_eq!(Injector::from_str("XdoTool"), Injector::Xdotool);
    assert_eq!(Injector::from_str("ydotool"), Injector::Ydotool);
    assert_eq!(Injector::from_str("wtype"), Injector::Ydotool);
    assert_eq!(Injector::from_str(""), Injector::Ydotool);
    assert_eq!(Injector::from_lowercase("XDOTOOL"), Injector::Ydotool);
    assert_eq!(Injector::from_lowercase("xdotool"), Injector::Xdotool);
}

#[test]
fn injector_names() {
    assert_eq!(Injector::Ydotool.name(), "ydotool");
    assert_eq!(Injector::Xdotool.name(), "xdotool");
    assert!(Injector::Ydotool.needs_daemon());
    assert!(!Injector::Xdotool.needs_daemon());
}

#[test]
fn missing_injector_error() {
    assert_eq!(Injector::Xdotool.check_available(true), Ok(()));
    let err = Injector::Xdotool.check_available(false).unwrap_err();
    assert_eq!(
        err,
        "`xdotool` not found in PATH.\n\nInstall xdotool:\n  Debian/Ubuntu: sudo apt install xdotool\n  Fedora: sudo dnf install xdotool\n  Arch: sudo pacman -S xdotool\n\nNote: xdotool only works on X11, not Wayland."
    );
    let err = Injector::Ydotool.check_available(false).unwrap_err();
    assert!(err.starts_with("`ydotool` not found in PATH.\n\nInstall ydotool:"));
    assert!(err.ends_with("systemctl --user enable --now ydotool"));
}

#[test]
fn typing_commands() {
    assert!(Injector::Ydotool.typing_command("").is_none());
    let c = Injector::Ydotool.typing_command("hello world").unwrap();
    assert_eq!(c.program, "ydotool");
    assert_eq!(c.args, vec!["type", "--", "hello world"]);
    let c = Injector::Xdotool.typing_command("-n x").unwrap();
    assert_eq!(c.program, "xdotool");
    assert_eq!(c.args, vec!["type", "--clearmodifiers", "--", "-n x"]);
}

#[test]
fn ydotool_socket_location() {
    assert_eq!(ydotool_socket_path(Some("/run/y.sock".to_string()), Some("/run/user/1000".to_string())), "/run/y.sock");
    assert_eq!(ydotool_socket_path(None, Some("/run/user/1000".to_string())), "/run/user/1000/.ydotool_socket");
    assert_eq!(ydotool_socket_path(None, None), "/tmp/.ydotool_socket");
}

#[test]
fn framer_keeps_samples_split_across_reads() {
    let bytes: Vec<u8> = (1.5f32).to_le_bytes().iter().chain((-0.25f32).to_le_bytes().iter()).copied().collect();
    let mut framer = SampleFramer::new();
    let first = framer.push(&bytes[..3]);
    assert!(first.is_empty());
    let second = framer.push(&bytes[3..6]);
    assert_eq!(second.iter().map(|w| f32::from_bits(*w)).collect::<Vec<_>>(), vec![1.5f32]);
    let third = framer.push(&bytes[6..]);
    assert_eq!(third.iter().map(|w| f32::from_bits(*w)).collect::<Vec<_>>(), vec![-0.25f32]);
    let mut one_go = SampleFramer::new();
    assert_eq!(one_go.push(&[1, 2, 3, 4, 5]), vec![0x0403_0201]);
    assert_eq!(one_go.push(&[6, 7, 8]), vec![0x0807_0605]);
    assert!(one_go.push(&[]).is_empty());
}
