//! The words with which the interactive client is told to leave.

use vstd::prelude::*;

verus! {

/// Whether `c` is white space: one of the 25 characters that Unicode gives
/// the property White_Space.
pub open spec fn is_white_space(c: char) -> bool {
    let n = c as u32;
    ||| 0x09 <= n <= 0x0d
    ||| n == 0x20
    ||| n == 0x85
    ||| n == 0xa0
    ||| n == 0x1680
    ||| 0x2000 <= n <= 0x200a
    ||| n == 0x2028
    ||| n == 0x2029
    ||| n == 0x202f
    ||| n == 0x205f
    ||| n == 0x3000
}

/// `c` with an ASCII capital letter made small; every other character as it
/// is.
pub open spec fn ascii_lower(c: char) -> char {
    if 'A' <= c <= 'Z' {
        ((c as u32) + 32) as char
    } else {
        c
    }
}

/// `s` without the white space at its start.
pub open spec fn trim_start(s: Seq<char>) -> Seq<char>
    decreases s.len(),
{
    if s.len() > 0 && is_white_space(s[0]) {
        trim_start(s.drop_first())
    } else {
        s
    }
}

/// `s` without the white space at its end.
pub open spec fn trim_end(s: Seq<char>) -> Seq<char>
    decreases s.len(),
{
    if s.len() > 0 && is_white_space(s.last()) {
        trim_end(s.drop_last())
    } else {
        s
    }
}

/// `s` without the white space at either end.
pub open spec fn trimmed(s: Seq<char>) -> Seq<char> {
    trim_end(trim_start(s))
}

/// Whether `a` and `b` are the same text but for the case of ASCII letters.
pub open spec fn same_ignoring_ascii_case(a: Seq<char>, b: Seq<char>) -> bool {
    &&& a.len() == b.len()
    &&& forall|i: int| 0 <= i < a.len() ==> ascii_lower(#[trigger] a[i]) == ascii_lower(b[i])
}

/// The word `exit`.
pub open spec fn exit_word() -> Seq<char> {
    seq!['e', 'x', 'i', 't']
}

/// The word `quit`.
pub open spec fn quit_word() -> Seq<char> {
    seq!['q', 'u', 'i', 't']
}

/// Whether `line` tells the client to leave: it is `exit` or `quit`, in any
/// mix of capital and small letters, with nothing but white space around it.
pub open spec fn asks_to_leave(line: Seq<char>) -> bool {
    ||| same_ignoring_ascii_case(trimmed(line), exit_word())
    ||| same_ignoring_ascii_case(trimmed(line), quit_word())
}

/// Whether `c` is white space.
pub fn white_space(c: char) -> (yes: bool)
    ensures
        yes == is_white_space(c),
{
    let n: u32 = c as u32;
    (0x09 <= n && n <= 0x0d) || n == 0x20 || n == 0x85 || n == 0xa0 || n == 0x1680 || (0x2000 <= n
        && n <= 0x200a) || n == 0x2028 || n == 0x2029 || n == 0x202f || n == 0x205f || n == 0x3000
}

/// `c` with an ASCII capital letter made small.
pub fn lower(c: char) -> (small: char)
    ensures
        small == ascii_lower(c),
{
    if 'A' <= c && c <= 'Z' {
        ((c as u8) + 32) as char
    } else {
        c
    }
}

proof fn lemma_trim_start(s: Seq<char>, k: int)
    requires
        0 <= k <= s.len(),
        forall|i: int| 0 <= i < k ==> is_white_space(#[trigger] s[i]),
        k == s.len() || !is_white_space(s[k]),
    ensures
        trim_start(s) == s.skip(k),
    decreases k,
{
    if k == 0 {
        assert(s.skip(0) =~= s);
    } else {
        let rest = s.drop_first();
        assert forall|i: int| 0 <= i < k - 1 implies is_white_space(#[trigger] rest[i]) by {
            assert(rest[i] == s[i + 1]);
        }
        lemma_trim_start(rest, k - 1);
        assert(rest.skip(k - 1) =~= s.skip(k));
    }
}

proof fn lemma_trim_end(s: Seq<char>, k: int)
    requires
        0 <= k <= s.len(),
        forall|i: int| k <= i < s.len() ==> is_white_space(#[trigger] s[i]),
        k == 0 || !is_white_space(s[k - 1]),
    ensures
        trim_end(s) == s.take(k),
    decreases s.len() - k,
{
    if k == s.len() {
        assert(s.take(k) =~= s);
    } else {
        let rest = s.drop_last();
        lemma_trim_end(rest, k);
        assert(rest.take(k) =~= s.take(k));
    }
}

fn chars_of(line: &str) -> (chars: Vec<char>)
    ensures
        chars@ == line@,
{
    let mut chars: Vec<char> = Vec::new();
    for c in it: line.chars()
        invariant
            chars@ == it.seq().take(it.index() as int),
            it.seq() == line@,
    {
        chars.push(c);
    }
    chars
}

fn is_word(chars: &Vec<char>, start: usize, a: char, b: char, c: char, d: char) -> (same: bool)
    requires
        start + 4 <= chars@.len(),
    ensures
        same == same_ignoring_ascii_case(chars@.subrange(start as int, start + 4), seq![a, b, c, d]),
{
    let n = chars.len();
    assert(start + 4 <= n);
    let same = lower(chars[start]) == lower(a) && lower(chars[start + 1]) == lower(b) && lower(
        chars[start + 2],
    ) == lower(c) && lower(chars[start + 3]) == lower(d);
    proof {
        let part = chars@.subrange(start as int, start + 4);
        let word = seq![a, b, c, d];
        assert(part[0] == chars@[start as int]);
        assert(part[1] == chars@[start + 1]);
        assert(part[2] == chars@[start + 2]);
        assert(part[3] == chars@[start + 3]);
        if same {
            assert forall|i: int| 0 <= i < part.len() implies ascii_lower(#[trigger] part[i])
                == ascii_lower(word[i]) by {
                assert(i == 0 || i == 1 || i == 2 || i == 3);
            }
        }
    }
    same
}

/// Whether `line` tells the client to leave.
pub fn is_exit_command(line: &str) -> (leave: bool)
    ensures
        leave == asks_to_leave(line@),
{
    let chars = chars_of(line);
    let n = chars.len();
    let mut start: usize = 0;
    while start < n && white_space(chars[start])
        invariant
            n == chars@.len(),
            start <= n,
            forall|i: int| 0 <= i < start ==> is_white_space(#[trigger] chars@[i]),
        decreases n - start,
    {
        start += 1;
    }
    let mut end: usize = n;
    while end > start && white_space(chars[end - 1])
        invariant
            n == chars@.len(),
            start <= end <= n,
            forall|i: int| end <= i < n ==> is_white_space(#[trigger] chars@[i]),
        decreases end,
    {
        end -= 1;
    }
    proof {
        let s = chars@;
        lemma_trim_start(s, start as int);
        let rest = s.skip(start as int);
        assert forall|i: int| end - start <= i < rest.len() implies is_white_space(
            #[trigger] rest[i],
        ) by {
            assert(rest[i] == s[i + start]);
        }
        if end > start {
            assert(rest[end - start - 1] == s[end - 1]);
        }
        lemma_trim_end(rest, end - start);
        assert(rest.take(end - start) =~= s.subrange(start as int, end as int));
        assert(trimmed(s) == s.subrange(start as int, end as int));
    }
    if end - start != 4 {
        return false;
    }
    let exit = is_word(&chars, start, 'e', 'x', 'i', 't');
    let quit = is_word(&chars, start, 'q', 'u', 'i', 't');
    exit || quit
}

} // verus!
