use ten_four::setup::{
    pactl_args, resolve_model_path, service_unit, smallest_model, source_selection, ModelFile, ModelPathError,
};

fn file(path: &str, size: u64) -> ModelFile {
    ModelFile { path: path.to_string(), size }
}

#[test]
fn explicit_model_wins() {
    let installed = vec![file("/m/ggml-tiny.bin", 10)];
    assert_eq!(resolve_model_path(Some("/x/model.bin".to_string()), &installed, true, true), Ok("/x/model.bin".to_string()));
}

#[test]
fn smallest_installed_model() {
    let installed = vec![
        file("/m/ggml-small.bin", 466),
        file("/m/notes.txt", 1),
        file("/m/ggml-tiny.en.bin", 75),
        file("/m/ggml-base.bin", 142),
    ];
    assert_eq!(smallest_model(&installed), Some(2));
    assert_eq!(resolve_model_path(None, &installed, true, true), Ok("/m/ggml-tiny.en.bin".to_string()));
}

#[test]
fn first_of_equal_sizes() {
    let installed = vec![file("/m/b.bin", 5), file("/m/a.bin", 5), file("/m/c.bin", 9)];
    assert_eq!(smallest_model(&installed), Some(0));
}

#[test]
fn local_models_as_fallback() {
    let installed = vec![file("/m/readme.md", 1)];
    assert_eq!(smallest_model(&installed), None);
    assert_eq!(resolve_model_path(None, &installed, true, true), Ok("./models/ggml-small.bin".to_string()));
    assert_eq!(resolve_model_path(None, &installed, false, true), Ok("./models/ggml-tiny.bin".to_string()));
}

#[test]
fn no_model_found() {
    let r = resolve_model_path(None, &vec![], false, false);
    assert_eq!(r, Err(ModelPathError::NotFound));
    assert_eq!(
        ModelPathError::NotFound.message(),
        "No model file found. Download a model and pass it with --model, set TEN_FOUR_MODEL env var, or place it at ./models/ggml-small.bin\n\nDownload: https://huggingface.co/ggerganov/whisper.cpp/resolve/main/ggml-small.bin"
    );
}

#[test]
fn unit_file() {
    let unit = service_unit(Some("/home/u/bin/ten-four".to_string()));
    assert_eq!(
        unit,
        "[Unit]\nDescription=ten-four speech-to-text daemon\nAfter=graphical-session.target\n\n[Service]\nType=simple\nExecStart=/home/u/bin/ten-four daemon\nRestart=on-failure\nRestartSec=3\nEnvironment=TEN_FOUR_MODEL=%h/.local/share/ten-four/models/ggml-small.bin\nEnvironment=RUST_LOG=ten_four=info\n\n[Install]\nWantedBy=default.target\n"
    );
    let unit = service_unit(None);
    assert!(unit.contains("ExecStart=/usr/local/bin/ten-four daemon\n"));
}

#[test]
fn source_selection_outcomes() {
    assert_eq!(pactl_args("mic"), vec!["set-default-source", "mic"]);
    assert_eq!(source_selection("mic", Some(true)), Ok(()));
    assert_eq!(
        source_selection("mic", Some(false)),
        Err("pactl failed to set source 'mic'. Run `ten-four list-mics` to see valid names.".to_string())
    );
    assert_eq!(
        source_selection("mic", None),
        Err("pactl not found \u{2014} install pulseaudio-utils or pipewire-pulse to use --device".to_string())
    );
}
