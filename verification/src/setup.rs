//! Start-up decisions: which speech model to load, the systemd unit that
//! runs the daemon, and how the chosen microphone source was applied.

use vstd::prelude::*;
use vstd::string::*;
use crate::text::{ends_with, has_suffix, lemma_suffix_by_position};

verus! {

/// The project-local models looked for when no model is given or installed.
pub const LOCAL_SMALL_MODEL: &'static str = "./models/ggml-small.bin";

/// See `LOCAL_SMALL_MODEL`.
pub const LOCAL_TINY_MODEL: &'static str = "./models/ggml-tiny.bin";

/// Where the daemon is assumed to be installed when its own path is unknown.
pub const DEFAULT_EXE: &'static str = "/usr/local/bin/ten-four";

/// A file in the user's model directory and its size in bytes.
pub struct ModelFile {
    pub path: String,
    pub size: u64,
}

/// Why no model could be chosen.
#[derive(Debug, Clone, Copy, PartialEq, Eq, Structural)]
pub enum ModelPathError {
    /// No model was given and none was found.
    NotFound,
}

impl ModelPathError {
    /// The message reported to the user.
    pub fn message(&self) -> (r: &'static str)
        ensures
            r@ == "No model file found. Download a model and pass it with --model, set TEN_FOUR_MODEL env var, or place it at ./models/ggml-small.bin\n\nDownload: https://huggingface.co/ggerganov/whisper.cpp/resolve/main/ggml-small.bin"@,
    {
        "No model file found. Download a model and pass it with --model, set TEN_FOUR_MODEL env var, or place it at ./models/ggml-small.bin\n\nDownload: https://huggingface.co/ggerganov/whisper.cpp/resolve/main/ggml-small.bin"
    }
}

/// Whether a file is a Whisper model: its name ends in `.bin`.
pub open spec fn is_model_path(path: Seq<char>) -> bool {
    has_suffix(path, ".bin"@)
}

/// A model file is one whose name ends in the four characters `.bin`.
pub proof fn lemma_model_path_ends_in_bin(path: Seq<char>)
    ensures
        is_model_path(path) <==> (path.len() >= 4 && path[path.len() - 4] == '.' && path[path.len() - 3] == 'b'
            && path[path.len() - 2] == 'i' && path[path.len() - 1] == 'n'),
{
    reveal_strlit(".bin");
    lemma_suffix_by_position(path, ".bin"@);
    if path.len() >= 4 && path[path.len() - 4] == '.' && path[path.len() - 3] == 'b' && path[path.len() - 2] == 'i'
        && path[path.len() - 1] == 'n' {
        assert forall|i: int| 0 <= i < 4 implies #[trigger] path[path.len() - 4 + i] == ".bin"@[i] by {
            if i == 0 {} else if i == 1 {} else if i == 2 {} else {}
        }
    }
    if is_model_path(path) {
        assert(path[path.len() - 4 + 0] == ".bin"@[0]);
        assert(path[path.len() - 4 + 1] == ".bin"@[1]);
        assert(path[path.len() - 4 + 2] == ".bin"@[2]);
        assert(path[path.len() - 4 + 3] == ".bin"@[3]);
    }
}

/// The model chosen among installed files is a `.bin` file no larger than
/// any other `.bin` file there, and among those of its size it comes first.
pub proof fn lemma_chosen_model_is_smallest_bin(files: Seq<ModelFile>, k: int)
    requires
        is_first_smallest_model(files, k),
    ensures
        files[k].path@.len() >= 4,
        files[k].path@[files[k].path@.len() - 4] == '.',
        files[k].path@[files[k].path@.len() - 1] == 'n',
        forall|j: int| 0 <= j < files.len() && is_model_path(#[trigger] files[j].path@) ==> files[k].size <= files[j].size,
        forall|j: int| 0 <= j < k && #[trigger] files[j].size == files[k].size ==> !is_model_path(files[j].path@),
{
    lemma_model_path_ends_in_bin(files[k].path@);
}

/// Whether entry `k` is a smallest model among the files, and the first
/// among the smallest.
pub open spec fn is_first_smallest_model(files: Seq<ModelFile>, k: int) -> bool {
    &&& 0 <= k < files.len()
    &&& is_model_path(files[k].path@)
    &&& forall|j: int| 0 <= j < files.len() && is_model_path(#[trigger] files[j].path@) ==> files[k].size <= files[j].size
    &&& forall|j: int| 0 <= j < k && is_model_path(#[trigger] files[j].path@) ==> files[k].size < files[j].size
}

/// Whether there is a model among the files.
pub open spec fn has_model(files: Seq<ModelFile>) -> bool {
    exists|j: int| 0 <= j < files.len() && is_model_path(#[trigger] files[j].path@)
}

/// The index of the smallest model among the files (the first of the
/// smallest when several have that size); `None` when none is a model.
pub fn smallest_model(files: &Vec<ModelFile>) -> (r: Option<usize>)
    ensures
        r is None <==> !has_model(files@),
        r matches Some(k) ==> is_first_smallest_model(files@, k as int),
{
    let mut best: Option<usize> = None;
    let mut i: usize = 0;
    while i < files.len()
        invariant
            i <= files@.len(),
            best is None <==> !(exists|j: int| 0 <= j < i && is_model_path(#[trigger] files@[j].path@)),
            best matches Some(k) ==> {
                &&& k < i
                &&& is_model_path(files@[k as int].path@)
                &&& forall|j: int| 0 <= j < i && is_model_path(#[trigger] files@[j].path@) ==> files@[k as int].size <= files@[j].size
                &&& forall|j: int| 0 <= j < k && is_model_path(#[trigger] files@[j].path@) ==> files@[k as int].size < files@[j].size
            },
        decreases files@.len() - i,
    {
        if ends_with(files[i].path.as_str(), ".bin") {
            match best {
                None => {
                    best = Some(i);
                },
                Some(k) => {
                    if files[i].size < files[k].size {
                        best = Some(i);
                    }
                },
            }
        }
        i = i + 1;
    }
    best
}

/// The model the daemon loads: the one given (by `--model` or
/// `TEN_FOUR_MODEL`); else the smallest `.bin` file in the user's model
/// directory; else `./models/ggml-small.bin`, then
/// `./models/ggml-tiny.bin`, when present.
pub fn resolve_model_path(
    explicit: Option<String>,
    installed: &Vec<ModelFile>,
    local_small_present: bool,
    local_tiny_present: bool,
) -> (r: Result<String, ModelPathError>)
    ensures
        explicit is Some ==> (r matches Ok(p) && p@ == explicit->0@),
        explicit is None && has_model(installed@) ==> (r matches Ok(p) && exists|k: int|
            is_first_smallest_model(installed@, k) && p@ == #[trigger] installed@[k].path@),
        explicit is None && !has_model(installed@) && local_small_present ==> (r matches Ok(p)
            && p@ == LOCAL_SMALL_MODEL@),
        explicit is None && !has_model(installed@) && !local_small_present && local_tiny_present
            ==> (r matches Ok(p) && p@ == LOCAL_TINY_MODEL@),
        explicit is None && !has_model(installed@) && !local_small_present && !local_tiny_present
            ==> r == Err::<String, ModelPathError>(ModelPathError::NotFound),
{
    if let Some(p) = explicit {
        return Ok(p);
    }
    match smallest_model(installed) {
        Some(k) => Ok(installed[k].path.clone()),
        None => {
            if local_small_present {
                Ok(String::from_str(LOCAL_SMALL_MODEL))
            } else if local_tiny_present {
                Ok(String::from_str(LOCAL_TINY_MODEL))
            } else {
                Err(ModelPathError::NotFound)
            }
        },
    }
}

/// The part of the unit file before the daemon's path.
pub open spec fn unit_head() -> Seq<char> {
    "[Unit]\nDescription=ten-four speech-to-text daemon\nAfter=graphical-session.target\n\n[Service]\nType=simple\nExecStart="@
}

/// The part of the unit file after the daemon's path.
pub open spec fn unit_tail() -> Seq<char> {
    " daemon\nRestart=on-failure\nRestartSec=3\nEnvironment=TEN_FOUR_MODEL=%h/.local/share/ten-four/models/ggml-small.bin\nEnvironment=RUST_LOG=ten_four=info\n\n[Install]\nWantedBy=default.target\n"@
}

/// A systemd user unit that runs `<exe> daemon`, where `exe` is the
/// daemon's own path, or `/usr/local/bin/ten-four` when that is unknown.
pub fn service_unit(exe: Option<String>) -> (r: String)
    ensures
        r@ == unit_head() + match exe {
            Some(e) => e@,
            None => DEFAULT_EXE@,
        } + unit_tail(),
{
    let path = match exe {
        Some(e) => e,
        None => String::from_str(DEFAULT_EXE),
    };
    let mut unit = String::from_str("[Unit]\nDescription=ten-four speech-to-text daemon\nAfter=graphical-session.target\n\n[Service]\nType=simple\nExecStart=");
    unit.append(path.as_str());
    unit.append(" daemon\nRestart=on-failure\nRestartSec=3\nEnvironment=TEN_FOUR_MODEL=%h/.local/share/ten-four/models/ggml-small.bin\nEnvironment=RUST_LOG=ten_four=info\n\n[Install]\nWantedBy=default.target\n");
    unit
}

/// The arguments with which `pactl` makes a source the default one.
pub fn pactl_args(device: &str) -> (r: Vec<String>)
    ensures
        r@.map_values(|s: String| s@) == seq!["set-default-source"@, device@],
{
    let r = vec![String::from_str("set-default-source"), String::from_str(device)];
    assert(r@.map_values(|s: String| s@) =~= seq!["set-default-source"@, device@]);
    r
}

/// The error when `pactl` ran but could not select the source.
pub open spec fn pactl_failed_message(device: Seq<char>) -> Seq<char> {
    "pactl failed to set source '"@ + device + "'. Run `ten-four list-mics` to see valid names."@
}

/// The error when `pactl` could not be run at all.
pub open spec fn pactl_missing_message() -> Seq<char> {
    "pactl not found \u{2014} install pulseaudio-utils or pipewire-pulse to use --device"@
}

/// Judges the attempt to make `device` the default source: `ran` is
/// `None` when `pactl` could not be run, else whether it succeeded.
pub fn source_selection(device: &str, ran: Option<bool>) -> (r: Result<(), String>)
    ensures
        ran == Some(true) ==> r is Ok,
        ran == Some(false) ==> (r matches Err(m) && m@ == pactl_failed_message(device@)),
        ran is None ==> (r matches Err(m) && m@ == pactl_missing_message()),
{
    match ran {
        Some(true) => Ok(()),
        Some(false) => {
            let mut m = String::from_str("pactl failed to set source '");
            m.append(device);
            m.append("'. Run `ten-four list-mics` to see valid names.");
            Err(m)
        },
        None => Err(String::from_str("pactl not found \u{2014} install pulseaudio-utils or pipewire-pulse to use --device")),
    }
}

} // verus!
