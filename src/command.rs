use vstd::prelude::*;
use vstd::string::*;

use crate::decimal::{parse_u64, parsed_u64};
use crate::message::Message;
use crate::text::text_equals;

verus! {

#[verifier::external_type_specification]
#[verifier::external_body]
pub struct ExBincodeErrorKind(bincode::ErrorKind);

/// The list of strings that bincode reads from `bytes`, if they hold one.
pub uninterp spec fn bincode_strings(bytes: Seq<u8>) -> Option<Seq<Seq<char>>>;

/// The bytes that bincode writes for a list of strings.
pub uninterp spec fn bincode_bytes(texts: Seq<Seq<char>>) -> Seq<u8>;

/// The texts of a list of strings.
pub open spec fn texts(v: Seq<String>) -> Seq<Seq<char>> {
    v.map_values(|s: String| s@)
}

/// Why a client's bytes were refused.
#[derive(Debug, Clone, Copy, PartialEq, Eq, Structural)]
pub enum CommandError {
    /// The bytes are not an encoded list of strings.
    MalformedEnvelope,
}

/// The message that a client command asks for: a command name and one
/// unsigned number. Anything else asks for nothing.
pub open spec fn command_message(c: Seq<Seq<char>>) -> Option<Message> {
    if c.len() != 2 {
        None
    } else {
        match parsed_u64(c[1]) {
            None => None,
            Some(n) => if c[0] == "select_workspace"@ {
                Some(Message::SelectWorkspace(n))
            } else if c[0] == "move_to_workspace"@ {
                Some(Message::MoveToWorkspace(n))
            } else if c[0] == "select_monitor"@ {
                Some(Message::SelectMonitor(n))
            } else if c[0] == "move_to_monitor"@ {
                Some(Message::MoveToMonitor(n))
            } else {
                None
            },
        }
    }
}

/// What the bytes of one client connection ask for.
pub open spec fn decode_outcome(bytes: Seq<u8>) -> Result<Option<Message>, CommandError> {
    match bincode_strings(bytes) {
        None => Err(CommandError::MalformedEnvelope),
        Some(c) => Ok(command_message(c)),
    }
}

/// Relies on bincode::deserialize to read a list of strings from the bytes a
/// client sent; the outcome depends on the bytes alone.
#[verifier::external_body]
fn deserialize_strings(bytes: &[u8]) -> (r: Result<Vec<String>, Box<bincode::ErrorKind>>)
    ensures
        match r {
            Ok(v) => bincode_strings(bytes@) == Some(texts(v@)),
            Err(_) => bincode_strings(bytes@) is None,
        },
{
    bincode::deserialize::<Vec<String>>(bytes)
}

/// Relies on bincode::serialize to write a list of strings as bytes; what it
/// writes depends on the strings alone. With bincode's default options there
/// is no size limit and a `Vec` gives its length up front, so it succeeds.
#[verifier::external_body]
fn serialize_strings(command: &Vec<String>) -> (r: Result<Vec<u8>, Box<bincode::ErrorKind>>)
    ensures
        r is Ok,
        r->Ok_0@ == bincode_bytes(texts(command@)),
{
    bincode::serialize(command)
}

/// Maps a client command, a name followed by its arguments, to the message
/// it asks for. Unknown names, a wrong number of arguments and arguments
/// that are no unsigned number give no message.
pub fn process_command(command: &Vec<String>) -> (r: Option<Message>)
    ensures
        r == command_message(texts(command@)),
{
    let ghost c = texts(command@);
    if command.len() != 2 {
        return None;
    }
    let name = command[0].as_str();
    let arg = command[1].as_str();
    assert(c[0] == name@ && c[1] == arg@);
    let n = match parse_u64(arg, 0, arg.unicode_len()) {
        Some(n) => n,
        None => {
            assert(arg@.subrange(0, arg@.len() as int) =~= arg@);
            return None;
        },
    };
    assert(arg@.subrange(0, arg@.len() as int) =~= arg@);
    proof {
        reveal_strlit("select_workspace");
        reveal_strlit("move_to_workspace");
        reveal_strlit("select_monitor");
        reveal_strlit("move_to_monitor");
    }
    if text_equals(name, "select_workspace") {
        Some(Message::SelectWorkspace(n))
    } else if text_equals(name, "move_to_workspace") {
        Some(Message::MoveToWorkspace(n))
    } else if text_equals(name, "select_monitor") {
        Some(Message::SelectMonitor(n))
    } else if text_equals(name, "move_to_monitor") {
        Some(Message::MoveToMonitor(n))
    } else {
        None
    }
}

/// Reads the bytes a client sent over one connection as a command and maps
/// it to a message. Bytes that hold no list of strings are refused; a list
/// that is no known command gives no message.
pub fn decode_command(bytes: &[u8]) -> (r: Result<Option<Message>, CommandError>)
    ensures
        r == decode_outcome(bytes@),
{
    match deserialize_strings(bytes) {
        Ok(command) => Ok(process_command(&command)),
        Err(_) => Err(CommandError::MalformedEnvelope),
    }
}

/// Encodes a client command, a name followed by its arguments, as the bytes
/// to send over one connection.
pub fn encode_command(command: &Vec<String>) -> (r: Vec<u8>)
    ensures
        r@ == bincode_bytes(texts(command@)),
{
    match serialize_strings(command) {
        Ok(b) => b,
        Err(_) => Vec::new(),
    }
}

/// A client command of a known name and one unsigned number asks for the
/// message of that name with that number; a command of any other length, or
/// whose argument is no unsigned number, asks for nothing.
pub proof fn lemma_command_mapping(c: Seq<Seq<char>>)
    ensures
        c.len() != 2 ==> command_message(c) is None,
        c.len() == 2 && parsed_u64(c[1]) is None ==> command_message(c) is None,
        c.len() == 2 && parsed_u64(c[1]) is Some ==> {
            let n = parsed_u64(c[1])->Some_0;
            &&& c[0] == "select_workspace"@ ==> command_message(c) == Some(
                Message::SelectWorkspace(n),
            )
            &&& c[0] == "move_to_workspace"@ ==> command_message(c) == Some(
                Message::MoveToWorkspace(n),
            )
            &&& c[0] == "select_monitor"@ ==> command_message(c) == Some(Message::SelectMonitor(n))
            &&& c[0] == "move_to_monitor"@ ==> command_message(c) == Some(
                Message::MoveToMonitor(n),
            )
        },
{
    reveal_strlit("select_workspace");
    reveal_strlit("move_to_workspace");
    reveal_strlit("select_monitor");
    reveal_strlit("move_to_monitor");
    assert("select_workspace"@[0] != "move_to_workspace"@[0]);
    assert("select_workspace"@[0] != "move_to_monitor"@[0]);
    assert("select_workspace"@.len() != "select_monitor"@.len());
    assert("move_to_workspace"@.len() != "select_monitor"@.len());
    assert("move_to_workspace"@.len() != "move_to_monitor"@.len());
    assert("select_monitor"@[0] != "move_to_monitor"@[0]);
}

/// Bytes that hold a list of strings are never refused, whatever the list
/// says: a command that is not understood gives no message.
pub proof fn lemma_content_never_fails(bytes: Seq<u8>)
    requires
        bincode_strings(bytes) is Some,
    ensures
        decode_outcome(bytes) is Ok,
        decode_outcome(bytes)->Ok_0 == command_message(bincode_strings(bytes)->Some_0),
{
}

} // verus!
