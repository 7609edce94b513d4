//! Discord message helpers: embed colours and Markdown escaping.
use vstd::prelude::*;

use crate::text::{chars_of, push_char};

verus! {

/// The colours of the bot's embeds.
#[derive(Debug, Clone, Copy, PartialEq, Eq, Structural)]
pub enum Colors {
    Info,
    Success,
    Warning,
    Error,
    Uncolored,
}

impl Colors {
    /// The colour as a 24-bit RGB value.
    pub fn value(&self) -> (r: u32)
        ensures
            r == match self {
                Colors::Info => 0x0773D6u32,
                Colors::Success => 0x3BD65Du32,
                Colors::Warning => 0xF0D932u32,
                Colors::Error => 0xFC1F28u32,
                Colors::Uncolored => 0u32,
            },
    {
        match self {
            Colors::Info => 0x0773D6,
            Colors::Success => 0x3BD65D,
            Colors::Warning => 0xF0D932,
            Colors::Error => 0xFC1F28,
            Colors::Uncolored => 0,
        }
    }
}

/// The characters that Discord's Markdown gives a meaning to.
pub open spec fn is_markdown_special(c: char) -> bool {
    c == '\\' || c == '/' || c == '*' || c == '_' || c == '~' || c == '`' || c == '[' || c == ']'
}

/// A character as written in escaped text: special characters get a backslash.
pub open spec fn escape_char(c: char) -> Seq<char> {
    if is_markdown_special(c) {
        seq!['\\', c]
    } else {
        seq![c]
    }
}

/// Text with every Markdown special character escaped by a backslash.
pub open spec fn escaped(s: Seq<char>) -> Seq<char>
    decreases s.len(),
{
    if s.len() == 0 {
        seq![]
    } else {
        escaped(s.drop_last()) + escape_char(s.last())
    }
}

/// Escapes Discord Markdown in `text`, so that it shows as written.
pub fn escape(text: &str) -> (r: String)
    ensures
        r@ == escaped(text@),
{
    let cs = chars_of(text);
    let mut s = String::new();
    for i in 0..cs.len()
        invariant
            s@ == escaped(cs@.take(i as int)),
    {
        let c = cs[i];
        proof {
            assert(cs@.take(i + 1).drop_last() =~= cs@.take(i as int));
        }
        if c == '\\' || c == '/' || c == '*' || c == '_' || c == '~' || c == '`' || c == '[' || c == ']' {
            push_char(&mut s, '\\');
        }
        push_char(&mut s, c);
        proof {
            assert(s@ =~= escaped(cs@.take(i + 1)));
        }
    }
    proof {
        assert(cs@.take(cs@.len() as int) =~= cs@);
    }
    s
}

} // verus!
