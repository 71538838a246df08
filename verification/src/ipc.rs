//! The request protocol spoken over the daemon's Unix socket.

use vstd::prelude::*;

verus! {

/// Default path of the daemon's Unix socket.
pub const SOCKET_PATH: &'static str = "/tmp/ten-four.sock";

/// A request a client sends to the daemon.
#[derive(Debug, Clone, Copy, PartialEq, Eq, Structural)]
pub enum Command {
    Toggle,
    Status,
}

/// The ASCII bytes `toggle`.
pub open spec fn toggle_bytes() -> Seq<u8> {
    seq![116u8, 111u8, 103u8, 103u8, 108u8, 101u8]
}

/// The ASCII bytes `status`.
pub open spec fn status_bytes() -> Seq<u8> {
    seq![115u8, 116u8, 97u8, 116u8, 117u8, 115u8]
}

/// The bytes that encode a command on the wire.
pub open spec fn command_bytes(c: Command) -> Seq<u8> {
    match c {
        Command::Toggle => toggle_bytes(),
        Command::Status => status_bytes(),
    }
}

/// The command a request encodes, if any: exactly the encodings of the
/// two commands are recognised, nothing else.
pub open spec fn parse_command(bytes: Seq<u8>) -> Option<Command> {
    if bytes == toggle_bytes() {
        Some(Command::Toggle)
    } else if bytes == status_bytes() {
        Some(Command::Status)
    } else {
        None
    }
}

/// Every command survives the wire: parsing its encoding gives it back.
pub proof fn lemma_command_round_trip(c: Command)
    ensures
        parse_command(command_bytes(c)) == Some(c),
{
    assert(toggle_bytes()[1] != status_bytes()[1]);
}

/// A request is recognised as a command only when it is exactly that
/// command's encoding.
pub proof fn lemma_parse_only_encodings(bytes: Seq<u8>, c: Command)
    requires
        parse_command(bytes) == Some(c),
    ensures
        bytes == command_bytes(c),
{
    assert(toggle_bytes()[1] != status_bytes()[1]);
}

/// On the wire a command is its name in ASCII: `toggle` or `status`, one
/// byte per letter.
pub proof fn lemma_commands_are_ascii_names()
    ensures
        command_bytes(Command::Toggle) == "toggle"@.map_values(|c: char| c as u8),
        command_bytes(Command::Status) == "status"@.map_values(|c: char| c as u8),
        command_bytes(Command::Toggle) != command_bytes(Command::Status),
{
    reveal_strlit("toggle");
    reveal_strlit("status");
    assert(command_bytes(Command::Toggle) =~= "toggle"@.map_values(|c: char| c as u8));
    assert(command_bytes(Command::Status) =~= "status"@.map_values(|c: char| c as u8));
    assert(toggle_bytes()[1] != status_bytes()[1]);
}

fn bytes_equal(a: &[u8], b: &[u8]) -> (r: bool)
    ensures
        r == (a@ == b@),
{
    if a.len() != b.len() {
        return false;
    }
    let mut i: usize = 0;
    while i < a.len()
        invariant
            a@.len() == b@.len(),
            i <= a@.len(),
            forall|j: int| 0 <= j < i ==> a@[j] == b@[j],
        decreases a@.len() - i,
    {
        if a[i] != b[i] {
            return false;
        }
        i = i + 1;
    }
    assert(a@ =~= b@);
    true
}

impl Command {
    /// The bytes of this command as sent over the socket.
    pub fn as_bytes(&self) -> (r: &'static [u8])
        ensures
            r@ == command_bytes(*self),
    {
        match self {
            Command::Toggle => {
                let b: &'static [u8] = &[116u8, 111u8, 103u8, 103u8, 108u8, 101u8];
                assert(b@ =~= toggle_bytes());
                b
            },
            Command::Status => {
                let b: &'static [u8] = &[115u8, 116u8, 97u8, 116u8, 117u8, 115u8];
                assert(b@ =~= status_bytes());
                b
            },
        }
    }

    /// Parses a request: `Some` exactly when the bytes are `toggle` or `status`.
    pub fn from_bytes(bytes: &[u8]) -> (r: Option<Command>)
        ensures
            r == parse_command(bytes@),
    {
        if bytes_equal(bytes, Command::Toggle.as_bytes()) {
            Some(Command::Toggle)
        } else if bytes_equal(bytes, Command::Status.as_bytes()) {
            Some(Command::Status)
        } else {
            None
        }
    }
}

} // verus!
