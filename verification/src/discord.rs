//! Discord message helpers of the bot: embed colours and Markdown escaping.
use vstd::prelude::*;

use crate::text::{chars_of, push_char};
use crate::utils::discord::is_markdown_special;

verus! {

/// The colours of the bot's embeds.
#[derive(Debug, Clone, Copy, PartialEq, Eq, Structural)]
pub enum EmbedColor {
    Info,
    Success,
    Warning,
    Error,
    Uncolored,
}

impl Default for EmbedColor {
    fn default() -> (r: Self)
        ensures
            r == EmbedColor::Uncolored,
    {
        EmbedColor::Uncolored
    }
}

impl EmbedColor {
    /// The colour as a 24-bit RGB value.
    pub fn value(&self) -> (r: u32)
        ensures
            r == match self {
                EmbedColor::Info => 0x0773D6u32,
                EmbedColor::Success => 0x3BD65Du32,
                EmbedColor::Warning => 0xF0D932u32,
                EmbedColor::Error => 0xFC1F28u32,
                EmbedColor::Uncolored => 0u32,
            },
    {
        match self {
            EmbedColor::Info => 0x0773D6,
            EmbedColor::Success => 0x3BD65D,
            EmbedColor::Warning => 0xF0D932,
            EmbedColor::Error => 0xFC1F28,
            EmbedColor::Uncolored => 0,
        }
    }
}

/// The character at `i` as written in escaped text: Markdown special characters
/// get a backslash, and so does a `-` that starts a `-#` (small text) marker.
pub open spec fn escape_at(s: Seq<char>, i: int) -> Seq<char> {
    if is_markdown_special(s[i]) {
        seq!['\\', s[i]]
    } else if s[i] == '-' && i + 1 < s.len() && s[i + 1] == '#' {
        seq!['\\', '-']
    } else {
        seq![s[i]]
    }
}

/// The escaped form of the first `n` characters of `s`.
pub open spec fn escaped_prefix(s: Seq<char>, n: int) -> Seq<char>
    decreases n,
{
    if n <= 0 {
        seq![]
    } else {
        escaped_prefix(s, n - 1) + escape_at(s, n - 1)
    }
}

/// Escapes Discord Markdown in `text`, so that it shows as written: links,
/// emphasis, code and small text markers lose their meaning.
pub fn escape(text: &str) -> (r: String)
    ensures
        r@ == escaped_prefix(text@, text@.len() as int),
{
    let cs = chars_of(text);
    let n = cs.len();
    let mut s = String::new();
    for i in 0..n
        invariant
            n == cs@.len(),
            cs@ == text@,
            s@ == escaped_prefix(cs@, i as int),
    {
        let c = cs[i];
        if c == '\\' || c == '/' || c == '*' || c == '_' || c == '~' || c == '`' || c == '[' || c == ']' {
            push_char(&mut s, '\\');
        } else if c == '-' && i + 1 < n && cs[i + 1] == '#' {
            push_char(&mut s, '\\');
        }
        push_char(&mut s, c);
        proof {
            assert(s@ =~= escaped_prefix(cs@, i + 1));
        }
    }
    s
}


/// Text with nothing that Markdown reads (no special character and no `-#`).
pub open spec fn is_plain(s: Seq<char>) -> bool {
    forall|i: int| 0 <= i < s.len() ==> !is_markdown_special(#[trigger] s[i]) && !(s[i] == '-' && i + 1 < s.len() && s[i + 1] == '#')
}

proof fn lemma_plain_prefix(s: Seq<char>, n: int)
    requires
        is_plain(s),
        0 <= n <= s.len(),
    ensures
        escaped_prefix(s, n) == s.take(n),
    decreases n,
{
    if n > 0 {
        lemma_plain_prefix(s, n - 1);
        assert(s.take(n) =~= s.take(n - 1).push(s[n - 1]));
        assert(!is_markdown_special(s[n - 1]));
    } else {
        assert(s.take(0) =~= Seq::<char>::empty());
    }
}

/// Escaping leaves plain text unchanged.
pub proof fn lemma_escape_plain_unchanged(s: Seq<char>)
    requires
        is_plain(s),
    ensures
        escaped_prefix(s, s.len() as int) == s,
{
    lemma_plain_prefix(s, s.len() as int);
    assert(s.take(s.len() as int) =~= s);
}

/// Escaping only adds characters: the escaped text is never shorter.
pub proof fn lemma_escape_length(s: Seq<char>, n: int)
    requires
        0 <= n <= s.len(),
    ensures
        escaped_prefix(s, n).len() >= n,
    decreases n,
{
    if n > 0 {
        lemma_escape_length(s, n - 1);
    }
}
} // verus!
