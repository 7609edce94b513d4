//! Messages between the bot and its player processes: one JSON document per
//! line over the player's standard input and output.
pub mod packet;

use vstd::prelude::*;

use crate::text::{push_char, split_on};

verus! {

/// Writes messages to a player process (or to the bot) through `W`.
pub struct IpcWriter<W> {
    writer: W,
}

impl<W> IpcWriter<W> {
    /// The underlying writer.
    pub closed spec fn inner(&self) -> W {
        self.writer
    }

    /// Wraps a writer.
    pub fn new(writer: W) -> (r: Self)
        ensures
            r.inner() == writer,
    {
        IpcWriter { writer }
    }

    /// The underlying writer, to write a frame through.
    pub fn get_mut(&mut self) -> (r: &mut W)
        ensures
            *r == old(self).inner(),
            final(self).inner() == *final(r),
    {
        &mut self.writer
    }
}

/// Wraps a writer for sending messages.
pub fn writer<W>(w: W) -> (r: IpcWriter<W>)
    ensures
        r.inner() == w,
{
    IpcWriter::new(w)
}

/// One message on the wire: its JSON text followed by a newline.
pub fn frame_message(json: String) -> (r: String)
    ensures
        r@ == json@.push('\n'),
{
    let mut json = json;
    push_char(&mut json, '\n');
    json
}

/// Why a received line is not a message.
#[derive(Debug, PartialEq, Eq, Structural)]
pub enum LineError {
    /// The line is empty.
    EmptyLine,
}

/// Accepts a received line (without its line ending) as the JSON text of one
/// message; an empty line is refused.
pub fn check_line(line: String) -> (r: Result<String, LineError>)
    ensures
        line@.len() == 0 <==> r == Err::<String, LineError>(LineError::EmptyLine),
        r matches Ok(text) ==> text@ == line@,
{
    if line.as_str().is_empty() {
        Err(LineError::EmptyLine)
    } else {
        Ok(line)
    }
}

/// A framed message read back line by line yields the message's text.
pub proof fn lemma_frame_then_line(json: Seq<char>)
    ensures
        json.push('\n').drop_last() == json,
        json.push('\n').last() == '\n',
{
    assert(json.push('\n').drop_last() =~= json);
}

/// The text of messages sent one after the other: each message's text followed
/// by a newline, as `frame_message` frames it.
pub open spec fn frames(messages: Seq<Seq<char>>) -> Seq<char>
    decreases messages.len(),
{
    if messages.len() == 0 {
        seq![]
    } else {
        frames(messages.drop_last()) + messages.last().push('\n')
    }
}

/// Appending text without a separator extends the last piece.
proof fn lemma_split_append(s: Seq<char>, t: Seq<char>, sep: char)
    requires
        forall|i: int| 0 <= i < t.len() ==> t[i] != sep,
    ensures
        split_on(s + t, sep) == split_on(s, sep).update(
            split_on(s, sep).len() - 1,
            split_on(s, sep).last() + t,
        ),
    decreases t.len(),
{
    crate::text::lemma_split_on_nonempty(s, sep);
    if t.len() == 0 {
        assert(s + t =~= s);
        assert(split_on(s, sep).last() + t =~= split_on(s, sep).last());
        assert(split_on(s, sep).update(split_on(s, sep).len() - 1, split_on(s, sep).last()) =~= split_on(s, sep));
    } else {
        lemma_split_append(s, t.drop_last(), sep);
        assert((s + t).drop_last() =~= s + t.drop_last());
        assert((s + t).last() == t.last());
        let prev = split_on(s, sep);
        assert(prev.last() + t.drop_last() + seq![t.last()] =~= prev.last() + t);
        assert((prev.last() + t.drop_last()).push(t.last()) =~= prev.last() + t);
        assert(split_on(s + t, sep) =~= prev.update(prev.len() - 1, prev.last() + t));
    }
}

/// Messages read back: splitting the text of framed messages (none holding a
/// newline) at newlines gives the messages in order, followed by the empty
/// rest after the last newline.
pub proof fn lemma_frames_read_back(messages: Seq<Seq<char>>)
    requires
        forall|k: int, i: int| 0 <= k < messages.len() && 0 <= i < messages[k].len() ==> messages[k][i] != '\n',
    ensures
        split_on(frames(messages), '\n') == messages.push(seq![]),
    decreases messages.len(),
{
    if messages.len() == 0 {
        assert(split_on(frames(messages), '\n') =~= messages.push(seq![]));
    } else {
        let init = messages.drop_last();
        let last = messages.last();
        assert forall|k: int, i: int| 0 <= k < init.len() && 0 <= i < init[k].len() implies init[k][i] != '\n' by {
            assert(init[k] == messages[k]);
        }
        lemma_frames_read_back(init);
        assert forall|i: int| 0 <= i < last.len() implies last[i] != '\n' by {
            assert(last == messages[messages.len() - 1]);
        }
        lemma_split_append(frames(init), last, '\n');
        let body = frames(init) + last;
        assert(frames(messages) =~= body.push('\n'));
        assert(body.push('\n').drop_last() =~= body);
        let pre = init.push(seq![]);
        assert(pre.update(pre.len() - 1, pre.last() + last) =~= messages) by {
            assert(Seq::<char>::empty() + last =~= last);
        }
        assert(split_on(frames(messages), '\n') =~= messages.push(seq![]));
    }
}

} // verus!
