//! Sentinel-delimited framing of the line protocol: an inbound message is one
//! JSON line followed by a line holding only `.`; an outbound batch is one
//! JSON array line followed by the same sentinel line.
use vstd::prelude::*;
use vstd::string::StringExecFns;
use crate::kinds::{TurnKind, turn_kind_code};
use crate::text::{dec_string, dec_text};

verus! {

/// The two fatal failure kinds of an exchange with the engine.
#[derive(Clone, Copy, Debug, PartialEq, Eq, Structural)]
pub enum AdapterError {
    /// The stream closed early, or the sentinel line is missing or wrong.
    ProtocolViolation,
    /// The message is not of the expected shape or field types.
    SchemaError,
}

/// A line as read from the stream, its `\n` terminator included where the
/// stream had one, whose content is exactly the sentinel `.`.
pub open spec fn is_sentinel(line: Seq<char>) -> bool {
    ||| line == seq!['.']
    ||| line == seq!['.', '\n']
}

/// Tells whether a line read from the stream is the sentinel line.
pub fn is_sentinel_line(line: &String) -> (r: bool)
    ensures
        r == is_sentinel(line@),
{
    let bare = ".".to_owned();
    let unix = ".\n".to_owned();
    proof {
        reveal_strlit(".");
        reveal_strlit(".\n");
        assert(bare@ =~= seq!['.']);
        assert(unix@ =~= seq!['.', '\n']);
    }
    *line == bare || *line == unix
}

/// Checks the framing of one inbound message. `message` and `terminator` are
/// the two lines read, `None` where the stream ended before that line. The
/// message line is handed on only when both lines came and the second is the
/// sentinel; anything else is a protocol violation.
pub fn read_frame(message: Option<String>, terminator: Option<String>) -> (r: Result<
    String,
    AdapterError,
>)
    ensures
        r is Ok <==> (message is Some && terminator is Some && is_sentinel(
            terminator->Some_0@,
        )),
        r matches Ok(m) ==> m == message->Some_0,
        r matches Err(e) ==> e == AdapterError::ProtocolViolation,
{
    match (message, terminator) {
        (Some(m), Some(t)) => {
            if is_sentinel_line(&t) {
                Ok(m)
            } else {
                Err(AdapterError::ProtocolViolation)
            }
        },
        _ => Err(AdapterError::ProtocolViolation),
    }
}

/// One tagged action on the wire: `{"type":<discriminant>,"data":<payload>}`.
pub open spec fn entry_text(kind: TurnKind, data: Seq<char>) -> Seq<char> {
    "{\"type\":"@ + dec_text(turn_kind_code(kind) as nat) + ",\"data\":"@ + data + "}"@
}

/// The tagged actions of a batch, in order, separated by commas.
pub open spec fn entries_text(entries: Seq<(TurnKind, String)>) -> Seq<char>
    decreases entries.len(),
{
    if entries.len() == 0 {
        seq![]
    } else if entries.len() == 1 {
        entry_text(entries[0].0, entries[0].1@)
    } else {
        entries_text(entries.drop_last()) + ","@ + entry_text(
            entries.last().0,
            entries.last().1@,
        )
    }
}

/// A whole outbound message: the batch as one JSON array line, then the
/// sentinel line.
pub open spec fn batch_text(entries: Seq<(TurnKind, String)>) -> Seq<char> {
    "["@ + entries_text(entries) + "]\n.\n"@
}

/// Frames one tick's actions as the outbound message. Each entry is an
/// action's kind and its payload, already encoded as a JSON object; they are
/// sent in the given order, none dropped, merged or reordered.
pub fn frame_turns(entries: &Vec<(TurnKind, String)>) -> (r: String)
    ensures
        r@ == batch_text(entries@),
{
    proof {
        reveal_strlit("[");
        reveal_strlit(",");
        reveal_strlit("{\"type\":");
        reveal_strlit(",\"data\":");
        reveal_strlit("}");
        reveal_strlit("]\n.\n");
    }
    let mut out = "[".to_owned();
    let mut i: usize = 0;
    while i < entries.len()
        invariant
            i <= entries@.len(),
            out@ == "["@ + entries_text(entries@.take(i as int)),
        decreases entries@.len() - i,
    {
        if i > 0 {
            out.append(",");
        }
        let kind = entries[i].0;
        out.append("{\"type\":");
        out.append(dec_string(kind.code() as u64).as_str());
        out.append(",\"data\":");
        out.append(entries[i].1.as_str());
        out.append("}");
        proof {
            let taken = entries@.take(i + 1);
            assert(taken.drop_last() =~= entries@.take(i as int));
            assert(taken.last() == entries@[i as int]);
            assert(out@ =~= "["@ + entries_text(taken));
        }
        i += 1;
    }
    out.append("]\n.\n");
    proof {
        assert(entries@.take(entries@.len() as int) =~= entries@);
    }
    out
}

} // verus!
