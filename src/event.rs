use vstd::prelude::*;
use vstd::string::*;

use crate::decimal::{parse_u64, parsed_u64};
use crate::message::Message;
use crate::text::{find_char, find_delimiter, first_delimiter, first_index_of, range_equals};

verus! {

/// Why a line of the compositor's event stream could not be read.
#[derive(Debug, Clone, Copy, PartialEq, Eq, Structural)]
pub enum EventError {
    /// The line has no `>>` between event name and payload.
    MissingDelimiter,
    /// The payload lacks the field that the event carries its identifier in.
    MissingField,
    /// The identifier field is not an unsigned number.
    InvalidNumber,
}

/// The first comma-separated field of a payload.
pub open spec fn first_field(s: Seq<char>) -> Seq<char> {
    match first_index_of(s, ',') {
        Some(c) => s.subrange(0, c),
        None => s,
    }
}

/// What follows the first comma of a payload, if it has one.
pub open spec fn after_first_comma(s: Seq<char>) -> Option<Seq<char>> {
    match first_index_of(s, ',') {
        Some(c) => Some(s.subrange(c + 1, s.len() as int)),
        None => None,
    }
}

/// The message announcing that the workspace with the identifier written in
/// `field` became active.
pub open spec fn id_message(field: Seq<char>) -> Result<Option<Message>, EventError> {
    match parsed_u64(field) {
        Some(id) => Ok(Some(Message::ActiveWorkspaceChangedID(id))),
        None => Err(EventError::InvalidNumber),
    }
}

/// What a line of the event stream means: `name>>payload`, where a
/// `workspacev2` event carries the active workspace's identifier in its
/// first field, a `focusedmonv2` event in its second, and other events
/// mean nothing here.
pub open spec fn event_outcome(line: Seq<char>) -> Result<Option<Message>, EventError> {
    match first_delimiter(line) {
        None => Err(EventError::MissingDelimiter),
        Some(i) => {
            let name = line.subrange(0, i);
            let payload = line.subrange(i + 2, line.len() as int);
            if name == "workspacev2"@ {
                id_message(first_field(payload))
            } else if name == "focusedmonv2"@ {
                match after_first_comma(payload) {
                    Some(rest) => id_message(first_field(rest)),
                    None => Err(EventError::MissingField),
                }
            } else {
                Ok(None)
            }
        },
    }
}

/// Reads the field of `s` that starts at `from` and ends at the next comma
/// or at the end, as a workspace identifier.
fn field_id_message(s: &str, from: usize) -> (r: Result<Option<Message>, EventError>)
    requires
        from <= s@.len(),
    ensures
        r == id_message(first_field(s@.subrange(from as int, s@.len() as int))),
{
    let n = s.unicode_len();
    let ghost t = s@.subrange(from as int, n as int);
    let end = match find_char(s, ',', from, n) {
        Some(c) => c,
        None => n,
    };
    assert(first_field(t) =~= s@.subrange(from as int, end as int));
    match parse_u64(s, from, end) {
        Some(id) => Ok(Some(Message::ActiveWorkspaceChangedID(id))),
        None => Err(EventError::InvalidNumber),
    }
}

/// Parses one line of the compositor's event stream into the message it
/// produces, if any.
pub fn parse_event_line(line: &str) -> (r: Result<Option<Message>, EventError>)
    ensures
        r == event_outcome(line@),
{
    let n = line.unicode_len();
    let i = match find_delimiter(line) {
        Some(i) => i,
        None => {
            return Err(EventError::MissingDelimiter);
        },
    };
    let ghost payload = line@.subrange(i + 2, n as int);
    proof {
        reveal_strlit("workspacev2");
        reveal_strlit("focusedmonv2");
    }
    if range_equals(line, 0, i, "workspacev2") {
        assert(payload =~= line@.subrange((i + 2) as int, n as int));
        field_id_message(line, i + 2)
    } else if range_equals(line, 0, i, "focusedmonv2") {
        match find_char(line, ',', i + 2, n) {
            Some(c) => {
                assert(line@.subrange(i + 2 + (c - (i + 2)) + 1, n as int) =~= line@.subrange(
                    c + 1,
                    n as int,
                ));
                assert(payload.subrange((c - (i + 2)) + 1, payload.len() as int)
                    =~= line@.subrange(c + 1, n as int));
                field_id_message(line, c + 1)
            },
            None => Err(EventError::MissingField),
        }
    } else {
        Ok(None)
    }
}

} // verus!
