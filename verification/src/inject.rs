//! Choosing how recognised text is typed into the focused window:
//! `ydotool` (Wayland) or `xdotool` (X11).

use vstd::prelude::*;
use vstd::string::*;
use crate::text::{lowercase, to_lowercase};

verus! {

/// A program that types text into the focused window.
#[derive(Debug, Clone, Copy, PartialEq, Eq, Structural)]
pub enum Injector {
    Ydotool,
    Xdotool,
}

/// The injector a lower-cased name selects: `xdotool` selects xdotool,
/// every other name ydotool.
pub open spec fn injector_for_lowercase(name: Seq<char>) -> Injector {
    if name == "xdotool"@ {
        Injector::Xdotool
    } else {
        Injector::Ydotool
    }
}

/// The program an injector runs.
pub open spec fn injector_name(i: Injector) -> Seq<char> {
    match i {
        Injector::Ydotool => "ydotool"@,
        Injector::Xdotool => "xdotool"@,
    }
}

/// How to install an injector and get it running.
pub open spec fn injector_hint(i: Injector) -> Seq<char> {
    match i {
        Injector::Ydotool => "Install ydotool:\n  Debian/Ubuntu: sudo apt install ydotool\n  Fedora: sudo dnf install ydotool\n  Arch: sudo pacman -S ydotool\n\nThen start the daemon:\n  systemctl --user enable --now ydotool"@,
        Injector::Xdotool => "Install xdotool:\n  Debian/Ubuntu: sudo apt install xdotool\n  Fedora: sudo dnf install xdotool\n  Arch: sudo pacman -S xdotool\n\nNote: xdotool only works on X11, not Wayland."@,
    }
}

/// The error reported when an injector's program is not installed.
pub open spec fn missing_message(i: Injector) -> Seq<char> {
    "`"@ + injector_name(i) + "` not found in PATH.\n\n"@ + injector_hint(i)
}

/// The arguments with which an injector's program types `text`.
pub open spec fn typing_args(i: Injector, text: Seq<char>) -> Seq<Seq<char>> {
    match i {
        Injector::Ydotool => seq!["type"@, "--"@, text],
        Injector::Xdotool => seq!["type"@, "--clearmodifiers"@, "--"@, text],
    }
}

/// A program to run and its arguments.
pub struct TypingCommand {
    pub program: String,
    pub args: Vec<String>,
}

/// The views of a list of strings.
pub open spec fn string_views(v: Seq<String>) -> Seq<Seq<char>> {
    v.map_values(|s: String| s@)
}

/// Where ydotoold's socket is: the `YDOTOOL_SOCKET` override if set, else
/// `.ydotool_socket` in the user's runtime directory, else under `/tmp`.
pub open spec fn socket_path_for(override_path: Option<Seq<char>>, runtime_dir: Option<Seq<char>>) -> Seq<char> {
    match override_path {
        Some(p) => p,
        None => match runtime_dir {
            Some(d) => d + "/.ydotool_socket"@,
            None => "/tmp/.ydotool_socket"@,
        },
    }
}

/// The text is handed to the typing program unchanged, as its last
/// argument, right after `--` so that no text is read as an option; the
/// program is told to `type`, and xdotool also to clear held modifiers.
pub proof fn lemma_text_passed_unchanged(i: Injector, text: Seq<char>)
    ensures
        typing_args(i, text).last() == text,
        typing_args(i, text)[typing_args(i, text).len() - 2] == "--"@,
        typing_args(i, text)[0] == "type"@,
        typing_args(Injector::Ydotool, text) == seq!["type"@, "--"@, text],
        typing_args(Injector::Xdotool, text) == seq!["type"@, "--clearmodifiers"@, "--"@, text],
{
}

/// Selecting an injector by its own program name gives that injector back,
/// and only the name `xdotool` selects xdotool.
pub proof fn lemma_injector_by_name(i: Injector, name: Seq<char>)
    ensures
        injector_for_lowercase(injector_name(i)) == i,
        injector_for_lowercase(name) == Injector::Xdotool <==> name == "xdotool"@,
        injector_name(Injector::Ydotool) == "ydotool"@,
        injector_name(Injector::Xdotool) == "xdotool"@,
{
    reveal_strlit("xdotool");
    reveal_strlit("ydotool");
    assert("xdotool"@[0] != "ydotool"@[0]);
}

impl Injector {
    /// Selects an injector by the lower-cased form of its name; see
    /// `from_lowercase`.
    pub fn from_str(s: &str) -> (r: Injector)
        ensures
            r == injector_for_lowercase(lowercase(s@)),
    {
        let lowered = to_lowercase(s);
        Injector::from_lowercase(lowered.as_str())
    }

    /// Selects an injector by an already lower-cased name: `xdotool` gives
    /// xdotool, anything else ydotool.
    pub fn from_lowercase(name: &str) -> (r: Injector)
        ensures
            r == injector_for_lowercase(name@),
    {
        let owned = String::from_str(name);
        let xdotool = String::from_str("xdotool");
        if owned == xdotool {
            Injector::Xdotool
        } else {
            Injector::Ydotool
        }
    }

    /// The name of the program this injector runs.
    pub fn name(&self) -> (r: &'static str)
        ensures
            r@ == injector_name(*self),
    {
        match self {
            Injector::Ydotool => "ydotool",
            Injector::Xdotool => "xdotool",
        }
    }

    /// How to install this injector.
    pub fn install_hint(&self) -> (r: &'static str)
        ensures
            r@ == injector_hint(*self),
    {
        match self {
            Injector::Ydotool => "Install ydotool:\n  Debian/Ubuntu: sudo apt install ydotool\n  Fedora: sudo dnf install ydotool\n  Arch: sudo pacman -S ydotool\n\nThen start the daemon:\n  systemctl --user enable --now ydotool",
            Injector::Xdotool => "Install xdotool:\n  Debian/Ubuntu: sudo apt install xdotool\n  Fedora: sudo dnf install xdotool\n  Arch: sudo pacman -S xdotool\n\nNote: xdotool only works on X11, not Wayland.",
        }
    }

    /// Decides whether the injector can be used, given whether its program
    /// was found on the `PATH`: an error naming the program and how to
    /// install it exactly when it was not found.
    pub fn check_available(&self, binary_found: bool) -> (r: Result<(), String>)
        ensures
            binary_found ==> r is Ok,
            !binary_found ==> (r matches Err(m) && m@ == missing_message(*self)),
    {
        if binary_found {
            return Ok(());
        }
        let mut message = String::from_str("`");
        message.append(self.name());
        message.append("` not found in PATH.\n\n");
        message.append(self.install_hint());
        Err(message)
    }

    /// Whether the injector needs its background daemon's socket (ydotool does).
    pub fn needs_daemon(&self) -> (r: bool)
        ensures
            r == (*self == Injector::Ydotool),
    {
        match self {
            Injector::Ydotool => true,
            Injector::Xdotool => false,
        }
    }

    /// The command that types `text`; `None` for empty text, which is not typed.
    pub fn typing_command(&self, text: &str) -> (r: Option<TypingCommand>)
        ensures
            text@.len() == 0 ==> r is None,
            text@.len() > 0 ==> (r matches Some(c) && c.program@ == injector_name(*self)
                && string_views(c.args@) == typing_args(*self, text@)),
    {
        if text.unicode_len() == 0 {
            return None;
        }
        let program = String::from_str(self.name());
        let args: Vec<String> = match self {
            Injector::Ydotool => vec![
                String::from_str("type"),
                String::from_str("--"),
                String::from_str(text),
            ],
            Injector::Xdotool => vec![
                String::from_str("type"),
                String::from_str("--clearmodifiers"),
                String::from_str("--"),
                String::from_str(text),
            ],
        };
        assert(string_views(args@) =~= typing_args(*self, text@));
        Some(TypingCommand { program, args })
    }
}

/// The path of ydotoold's socket, from the `YDOTOOL_SOCKET` and
/// `XDG_RUNTIME_DIR` settings.
pub fn ydotool_socket_path(override_path: Option<String>, runtime_dir: Option<String>) -> (r: String)
    ensures
        r@ == socket_path_for(
            match override_path { Some(p) => Some(p@), None => None },
            match runtime_dir { Some(d) => Some(d@), None => None },
        ),
{
    match override_path {
        Some(p) => p,
        None => match runtime_dir {
            Some(d) => d.concat("/.ydotool_socket"),
            None => String::from_str("/tmp/.ydotool_socket"),
        },
    }
}

} // verus!
