//! Character-level helpers shared by the formatting and parsing code:
//! decimal rendering of numbers, decimal parsing as `str::parse::<u32>` does it,
//! and building strings one character at a time.
use vstd::prelude::*;

verus! {

/// The character of a decimal digit `d` (0 to 9).
pub open spec fn digit_char(d: int) -> char {
    (d + 48) as char
}

/// Whether `c` is an ASCII decimal digit.
pub open spec fn is_digit(c: char) -> bool {
    '0' <= c && c <= '9'
}

/// The numeric value of an ASCII digit character.
pub open spec fn digit_value(c: char) -> int {
    c as int - 48
}

/// Decimal representation of a natural number, without sign or leading zeros.
pub open spec fn decimal(n: nat) -> Seq<char>
    decreases n,
{
    if n < 10 {
        seq![digit_char(n as int)]
    } else {
        decimal(n / 10).push(digit_char((n % 10) as int))
    }
}

/// Whether every character of `s` is an ASCII digit.
pub open spec fn all_digits(s: Seq<char>) -> bool {
    forall|i: int| 0 <= i < s.len() ==> is_digit(#[trigger] s[i])
}

/// The value of a sequence of decimal digits, most significant first.
pub open spec fn digits_value(s: Seq<char>) -> int
    decreases s.len(),
{
    if s.len() == 0 {
        0
    } else {
        digits_value(s.drop_last()) * 10 + digit_value(s.last())
    }
}

/// The digit part of a string given to an unsigned integer parser: an empty string,
/// or a lone sign, is rejected; one leading `+` is skipped.
pub open spec fn unsigned_digits(s: Seq<char>) -> Option<Seq<char>> {
    if s.len() == 0 {
        None
    } else if s.len() == 1 && (s[0] == '+' || s[0] == '-') {
        None
    } else if s[0] == '+' {
        Some(s.drop_first())
    } else {
        Some(s)
    }
}

/// What `str::parse::<u32>` gives for the text `s`: `Some` of the value when `s` is
/// an optional `+` followed by decimal digits whose value fits in a `u32`, else `None`.
pub open spec fn parse_u32_spec(s: Seq<char>) -> Option<u32> {
    match unsigned_digits(s) {
        None => None,
        Some(d) => if all_digits(d) && digits_value(d) <= u32::MAX {
            Some(digits_value(d) as u32)
        } else {
            None
        },
    }
}

/// Appends one character to a string (std's `String::push`).
#[verifier::external_body]
pub(crate) fn push_char(s: &mut String, c: char)
    ensures
        final(s)@ == old(s)@.push(c),
{
    s.push(c);
}

/// The characters of a string slice, in order.
pub fn chars_of(s: &str) -> (v: Vec<char>)
    ensures
        v@ == s@,
{
    let mut v: Vec<char> = Vec::new();
    for c in it: s.chars()
        invariant
            v@ == it.seq().take(it.index()),
            it.seq() == s@,
    {
        v.push(c);
    }
    v
}

/// The character of the decimal digit `d`.
pub fn digit_to_char(d: u64) -> (c: char)
    requires
        d < 10,
    ensures
        c == digit_char(d as int),
        is_digit(c),
{
    let b: u8 = 48u8 + d as u8;
    b as char
}

/// Appends the decimal representation of `n` to `s`.
pub fn push_decimal(s: &mut String, n: u64)
    ensures
        final(s)@ == old(s)@ + decimal(n as nat),
    decreases n,
{
    if n >= 10 {
        push_decimal(s, n / 10);
    }
    let c = digit_to_char(n % 10);
    push_char(s, c);
    proof {
        assert(old(s)@ + decimal(n as nat) =~= s@);
    }
}

/// Appends a string slice to `s`.
pub fn push_str(s: &mut String, t: &str)
    ensures
        final(s)@ == old(s)@ + t@,
{
    s.append(t);
}

/// Digit values only grow as digits are appended.
pub proof fn lemma_digits_value_prefix(s: Seq<char>, n: int)
    requires
        all_digits(s),
        0 <= n <= s.len(),
    ensures
        0 <= digits_value(s.take(n)) <= digits_value(s),
    decreases s.len(),
{
    if n == s.len() {
        assert(s.take(n) =~= s);
        lemma_digits_value_nonneg(s);
    } else {
        let p = s.drop_last();
        assert(s.take(n) =~= p.take(n));
        lemma_digits_value_prefix(p, n);
        lemma_digits_value_nonneg(p);
        assert(is_digit(s[s.len() - 1]));
    }
}

/// The value of a digit sequence is never negative.
pub proof fn lemma_digits_value_nonneg(s: Seq<char>)
    requires
        all_digits(s),
    ensures
        digits_value(s) >= 0,
    decreases s.len(),
{
    if s.len() > 0 {
        lemma_digits_value_nonneg(s.drop_last());
        assert(is_digit(s[s.len() - 1]));
    }
}

/// Parses an unsigned 32-bit decimal number as `str::parse::<u32>` does.
pub fn parse_u32(s: &str) -> (r: Option<u32>)
    ensures
        r == parse_u32_spec(s@),
{
    let cs = chars_of(s);
    let n = cs.len();
    if n == 0 {
        return None;
    }
    if n == 1 && (cs[0] == '+' || cs[0] == '-') {
        return None;
    }
    let start: usize = if cs[0] == '+' { 1 } else { 0 };
    let ghost d = if cs@[0] == '+' { cs@.drop_first() } else { cs@ };
    proof {
        assert(unsigned_digits(s@) == Some(d));
        assert(d =~= cs@.subrange(start as int, n as int));
    }
    let mut acc: u64 = 0;
    let mut i: usize = start;
    while i < n
        invariant
            start <= i <= n,
            n == cs@.len(),
            cs@ == s@,
            unsigned_digits(s@) == Some(d),
            d =~= cs@.subrange(start as int, n as int),
            all_digits(d.take(i - start)),
            acc == digits_value(d.take(i - start)),
            acc <= u32::MAX,
        decreases n - i,
    {
        let c = cs[i];
        if !('0' <= c && c <= '9') {
            proof {
                assert(d[i - start] == c);
                assert(!is_digit(d[i - start]));
                assert(!all_digits(d));
            }
            return None;
        }
        let next: u64 = acc * 10 + (c as u64 - 48);
        proof {
            let t = d.take(i - start + 1);
            assert(t.drop_last() =~= d.take(i - start));
            assert(t.last() == c);
            assert(all_digits(t));
        }
        if next > 0xffff_ffff {
            proof {
                let t = d.take(i - start + 1);
                if all_digits(d) {
                    lemma_digits_value_prefix(d, i - start + 1);
                }
            }
            return None;
        }
        acc = next;
        i = i + 1;
    }
    proof {
        assert(d.take(n - start) =~= d);
    }
    Some(acc as u32)
}


/// The pieces of `s` between occurrences of `sep`, as `str::split` yields them:
/// empty pieces are kept, and there is always at least one piece.
pub open spec fn split_on(s: Seq<char>, sep: char) -> Seq<Seq<char>>
    decreases s.len(),
{
    if s.len() == 0 {
        seq![Seq::<char>::empty()]
    } else {
        let prev = split_on(s.drop_last(), sep);
        if s.last() == sep {
            prev.push(Seq::<char>::empty())
        } else {
            prev.update(prev.len() - 1, prev.last().push(s.last()))
        }
    }
}

/// `split_on` always yields at least one piece.
pub proof fn lemma_split_on_nonempty(s: Seq<char>, sep: char)
    ensures
        split_on(s, sep).len() >= 1,
    decreases s.len(),
{
    if s.len() > 0 {
        lemma_split_on_nonempty(s.drop_last(), sep);
    }
}

/// Scans the characters in `cs` for the pieces between occurrences of `sep`:
/// the number of separators met, and the `k`-th piece.
fn scan_pieces(cs: &Vec<char>, sep: char, k: usize) -> (r: (usize, Vec<char>))
    ensures
        r.0 + 1 == split_on(cs@, sep).len(),
        k <= r.0 ==> r.1@ == split_on(cs@, sep)[k as int],
{
    let mut seps: usize = 0;
    let mut piece: Vec<char> = Vec::new();
    let mut i: usize = 0;
    proof {
        assert(cs@.take(0) =~= Seq::<char>::empty());
    }
    while i < cs.len()
        invariant
            i <= cs@.len(),
            seps + 1 == split_on(cs@.take(i as int), sep).len(),
            seps <= i,
            k <= seps ==> piece@ == split_on(cs@.take(i as int), sep)[k as int],
            k > seps ==> piece@ == Seq::<char>::empty(),
        decreases cs@.len() - i,
    {
        let c = cs[i];
        let ghost pre = cs@.take(i as int);
        let ghost nxt = cs@.take(i + 1);
        proof {
            assert(nxt.drop_last() =~= pre);
            assert(nxt.last() == c);
            lemma_split_on_nonempty(pre, sep);
        }
        if c == sep {
            seps = seps + 1;
        } else {
            if k == seps {
                piece.push(c);
            }
        }
        i = i + 1;
    }
    proof {
        assert(cs@.take(cs@.len() as int) =~= cs@);
    }
    (seps, piece)
}

/// The `k`-th piece of `s` split at `sep`, as `s.split(sep).nth(k)` gives it.
pub fn split_nth(s: &str, sep: char, k: usize) -> (r: Option<Vec<char>>)
    ensures
        match r {
            Some(p) => k < split_on(s@, sep).len() && p@ == split_on(s@, sep)[k as int],
            None => k >= split_on(s@, sep).len(),
        },
{
    let cs = chars_of(s);
    let (seps, piece) = scan_pieces(&cs, sep, k);
    if k <= seps {
        Some(piece)
    } else {
        None
    }
}

/// The last piece of `s` split at `sep`, as `s.split(sep).next_back()` gives it.
pub fn split_last(s: &str, sep: char) -> (r: Vec<char>)
    ensures
        r@ == split_on(s@, sep).last(),
{
    let cs = chars_of(s);
    let (seps, _) = scan_pieces(&cs, sep, 0);
    let (_, last_piece) = scan_pieces(&cs, sep, seps);
    last_piece
}

/// Whether the characters in `v` spell out `t`.
pub fn chars_eq(v: &Vec<char>, t: &str) -> (r: bool)
    ensures
        r == (v@ == t@),
{
    let tc = chars_of(t);
    if v.len() != tc.len() {
        return false;
    }
    let mut i: usize = 0;
    while i < v.len()
        invariant
            i <= v@.len(),
            v@.len() == tc@.len(),
            tc@ == t@,
            forall|j: int| 0 <= j < i ==> v@[j] == tc@[j],
        decreases v@.len() - i,
    {
        if v[i] != tc[i] {
            return false;
        }
        i = i + 1;
    }
    proof {
        assert(v@ =~= tc@);
    }
    true
}

} // verus!
