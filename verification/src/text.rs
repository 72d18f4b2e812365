//! Text helpers shared by the rest of the crate: decimal rendering, string
//! comparison, splitting, trimming and word extraction, each stated over the
//! sequence of characters that a string denotes.

use vstd::prelude::*;
use vstd::string::*;

verus! {

/// The character that writes the decimal digit `d` (for `0 <= d <= 9`).
pub open spec fn digit(d: int) -> char {
    ((48 + d) as u8) as char
}

/// Decimal notation of a natural number, most significant digit first, with
/// no leading zero (zero itself is written `0`).
pub open spec fn decimal_nat(n: nat) -> Seq<char>
    decreases n,
{
    if n < 10 {
        seq![digit(n as int)]
    } else {
        decimal_nat(n / 10).push(digit((n % 10) as int))
    }
}

/// Decimal notation of an integer: a minus sign for negative numbers, then
/// the notation of the magnitude.
pub open spec fn decimal(n: int) -> Seq<char> {
    if n < 0 {
        seq!['-'] + decimal_nat((-n) as nat)
    } else {
        decimal_nat(n as nat)
    }
}

/// Digits of `n` when `n > 0`, nothing when `n == 0`: what is still to be
/// written in front of the digits already produced.
spec fn leading(n: nat) -> Seq<char> {
    if n == 0 {
        Seq::<char>::empty()
    } else {
        decimal_nat(n)
    }
}

proof fn lemma_leading_step(n: nat)
    requires
        n > 0,
    ensures
        leading(n) == leading(n / 10).push(digit((n % 10) as int)),
{
    if n < 10 {
        assert(leading(n / 10) =~= Seq::<char>::empty());
        assert(seq![digit(n as int)] =~= Seq::<char>::empty().push(digit((n % 10) as int)));
    }
}

fn push_digit(out: &mut String, d: u8)
    requires
        d < 10,
    ensures
        final(out)@ == old(out)@.push(digit(d as int)),
{
    let piece: &str = match d {
        0 => "0",
        1 => "1",
        2 => "2",
        3 => "3",
        4 => "4",
        5 => "5",
        6 => "6",
        7 => "7",
        8 => "8",
        _ => "9",
    };
    proof {
        reveal_strlit("0");
        reveal_strlit("1");
        reveal_strlit("2");
        reveal_strlit("3");
        reveal_strlit("4");
        reveal_strlit("5");
        reveal_strlit("6");
        reveal_strlit("7");
        reveal_strlit("8");
        reveal_strlit("9");
        assert(piece@ =~= seq![digit(d as int)]);
    }
    out.append(piece);
    assert(out@ =~= old(out)@.push(digit(d as int)));
}

/// Appends the decimal notation of `n` to `out`.
pub fn push_decimal(out: &mut String, n: i64)
    ensures
        final(out)@ == old(out)@ + decimal(n as int),
{
    let mut mag: u64;
    if n < 0 {
        proof {
            reveal_strlit("-");
        }
        out.append("-");
        mag = ((-(n + 1)) as u64) + 1;
        assert(out@ =~= old(out)@ + seq!['-']);
    } else {
        mag = n as u64;
        assert(out@ =~= old(out)@);
    }
    let ghost start = out@;
    let ghost whole = mag as nat;
    assert(old(out)@ + decimal(n as int) =~= start + decimal_nat(whole));
    // Least significant digit first.
    let mut rev: Vec<u8> = Vec::new();
    let ghost mut tail: Seq<char> = Seq::empty();
    rev.push((mag % 10) as u8);
    proof {
        tail = seq![digit((mag % 10) as int)];
        if mag >= 10 {
            assert(decimal_nat(whole) =~= leading((mag / 10) as nat) + tail);
        } else {
            assert(decimal_nat(whole) =~= leading((mag / 10) as nat) + tail);
        }
    }
    mag = mag / 10;
    while mag > 0
        invariant
            decimal_nat(whole) == leading(mag as nat) + tail,
            rev.len() == tail.len(),
            rev.len() >= 1,
            forall|k: int| 0 <= k < rev.len() ==> rev[k] < 10,
            forall|j: int|
                0 <= j < rev.len() ==> tail[rev.len() - 1 - j] == digit(#[trigger] rev[j] as int),
        decreases mag,
    {
        let d: u8 = (mag % 10) as u8;
        proof {
            lemma_leading_step(mag as nat);
            let next = seq![digit(d as int)] + tail;
            assert(leading(mag as nat) + tail =~= leading((mag / 10) as nat) + next);
            tail = next;
        }
        rev.push(d);
        mag = mag / 10;
    }
    assert(decimal_nat(whole) =~= tail);
    let mut i: usize = rev.len();
    while i > 0
        invariant
            i <= rev.len(),
            rev.len() == tail.len(),
            forall|k: int| 0 <= k < rev.len() ==> rev[k] < 10,
            forall|j: int|
                0 <= j < rev.len() ==> tail[rev.len() - 1 - j] == digit(#[trigger] rev[j] as int),
            out@ == start + tail.take(rev.len() - i),
        decreases i,
    {
        i = i - 1;
        assert(tail[rev.len() - 1 - i] == digit(rev[i as int] as int));
        push_digit(out, rev[i]);
        assert(out@ =~= start + tail.take(rev.len() - i));
    }
    assert(tail.take(rev.len() as int) =~= tail);
}

/// The decimal notation of `n` as a string.
pub fn decimal_string(n: i64) -> (out: String)
    ensures
        out@ == decimal(n as int),
{
    let mut out = String::new();
    push_decimal(&mut out, n);
    assert(out@ =~= decimal(n as int));
    out
}

/// The characters of `s`, in order.
pub fn chars_of(s: &str) -> (v: Vec<char>)
    ensures
        v@ == s@,
{
    broadcast use vstd::string::group_string_axioms;

    let mut v: Vec<char> = Vec::new();
    for c in it: s.chars()
        invariant
            it.seq() == s@,
            v@ == s@.take(it.index() as int),
    {
        v.push(c);
    }
    v
}

/// Whether two character vectors hold the same characters.
pub fn chars_eq(a: &Vec<char>, b: &Vec<char>) -> (same: bool)
    ensures
        same == (a@ == b@),
{
    if a.len() != b.len() {
        return false;
    }
    let mut i: usize = 0;
    while i < a.len()
        invariant
            a.len() == b.len(),
            i <= a.len(),
            forall|k: int| 0 <= k < i ==> a[k] == b[k],
        decreases a.len() - i,
    {
        if a[i] != b[i] {
            return false;
        }
        i += 1;
    }
    assert(a@ =~= b@);
    true
}

/// Whether two strings hold the same characters.
pub fn str_eq(a: &str, b: &str) -> (same: bool)
    ensures
        same == (a@ == b@),
{
    let x = chars_of(a);
    let y = chars_of(b);
    chars_eq(&x, &y)
}

/// The character sequences that a sequence of strings denotes.
pub open spec fn views(parts: Seq<String>) -> Seq<Seq<char>> {
    parts.map_values(|p: String| p@)
}

/// Pieces of `s` between occurrences of `sep`, reading from the front with
/// `cur` holding the piece under way. A text without `sep` is one piece; a
/// separator at either end leaves an empty piece there.
pub open spec fn split_acc(s: Seq<char>, sep: char, cur: Seq<char>) -> Seq<Seq<char>>
    decreases s.len(),
{
    if s.len() == 0 {
        seq![cur]
    } else if s[0] == sep {
        seq![cur] + split_acc(s.drop_first(), sep, Seq::empty())
    } else {
        split_acc(s.drop_first(), sep, cur.push(s[0]))
    }
}

/// Pieces of `s` between occurrences of `sep`.
pub open spec fn split(s: Seq<char>, sep: char) -> Seq<Seq<char>> {
    split_acc(s, sep, Seq::empty())
}

/// Splits `s` at every `sep`.
pub fn split_on(s: &str, sep: char) -> (parts: Vec<String>)
    ensures
        views(parts@) == split(s@, sep),
{
    let cs = chars_of(s);
    let mut parts: Vec<String> = Vec::new();
    let mut start: usize = 0;
    let mut i: usize = 0;
    assert(cs@.skip(0) =~= cs@);
    assert(cs@.subrange(0, 0) =~= Seq::<char>::empty());
    assert(views(parts@) =~= Seq::<Seq<char>>::empty());
    assert(split(cs@, sep) =~= views(parts@) + split_acc(cs@.skip(0), sep, cs@.subrange(0, 0)));
    while i < cs.len()
        invariant
            cs@ == s@,
            start <= i <= cs.len(),
            split(cs@, sep) == views(parts@) + split_acc(
                cs@.skip(i as int),
                sep,
                cs@.subrange(start as int, i as int),
            ),
        decreases cs.len() - i,
    {
        let ghost rest = cs@.skip(i as int);
        let ghost cur = cs@.subrange(start as int, i as int);
        assert(rest.drop_first() =~= cs@.skip(i + 1));
        assert(rest[0] == cs[i as int]);
        if cs[i] == sep {
            let piece = s.substring_char(start, i).to_owned();
            let ghost before = views(parts@);
            parts.push(piece);
            assert(views(parts@) =~= before.push(cur));
            assert(before + (seq![cur] + split_acc(rest.drop_first(), sep, Seq::empty()))
                =~= before.push(cur) + split_acc(rest.drop_first(), sep, Seq::empty()));
            start = i + 1;
            assert(cs@.subrange(start as int, start as int) =~= Seq::<char>::empty());
        } else {
            assert(cur.push(rest[0]) =~= cs@.subrange(start as int, i + 1));
        }
        i += 1;
    }
    let piece = s.substring_char(start, i).to_owned();
    let ghost before = views(parts@);
    parts.push(piece);
    assert(cs@.skip(i as int).len() == 0);
    assert(views(parts@) =~= before + seq![cs@.subrange(start as int, i as int)]);
    parts
}

/// Whether `c` has the Unicode property White_Space.
pub open spec fn is_space(c: char) -> bool {
    let u = c as u32;
    ||| 0x09 <= u <= 0x0D
    ||| u == 0x20
    ||| u == 0x85
    ||| u == 0xA0
    ||| u == 0x1680
    ||| 0x2000 <= u <= 0x200A
    ||| u == 0x2028
    ||| u == 0x2029
    ||| u == 0x202F
    ||| u == 0x205F
    ||| u == 0x3000
}

/// Whether `c` is a white-space character.
pub fn is_whitespace(c: char) -> (white: bool)
    ensures
        white == is_space(c),
{
    let u: u32 = c as u32;
    (0x09 <= u && u <= 0x0D) || u == 0x20 || u == 0x85 || u == 0xA0 || u == 0x1680 || (0x2000 <= u
        && u <= 0x200A) || u == 0x2028 || u == 0x2029 || u == 0x202F || u == 0x205F || u == 0x3000
}

/// `s` without its leading white space.
pub open spec fn trim_start(s: Seq<char>) -> Seq<char>
    decreases s.len(),
{
    if s.len() > 0 && is_space(s[0]) {
        trim_start(s.drop_first())
    } else {
        s
    }
}

/// `s` without its trailing white space.
pub open spec fn trim_end(s: Seq<char>) -> Seq<char>
    decreases s.len(),
{
    if s.len() > 0 && is_space(s.last()) {
        trim_end(s.drop_last())
    } else {
        s
    }
}

/// `s` without leading and trailing white space.
pub open spec fn trim(s: Seq<char>) -> Seq<char> {
    trim_end(trim_start(s))
}

/// The bounds of `cs` once leading and trailing white space is set aside.
pub fn trim_bounds(cs: &Vec<char>) -> (bounds: (usize, usize))
    ensures
        bounds.0 <= bounds.1 <= cs.len(),
        cs@.subrange(bounds.0 as int, bounds.1 as int) == trim(cs@),
{
    let mut lo: usize = 0;
    assert(cs@.skip(0) =~= cs@);
    while lo < cs.len() && is_whitespace(cs[lo])
        invariant
            lo <= cs.len(),
            trim_start(cs@) == trim_start(cs@.skip(lo as int)),
        decreases cs.len() - lo,
    {
        assert(cs@.skip(lo as int).drop_first() =~= cs@.skip(lo + 1));
        lo += 1;
    }
    assert(trim_start(cs@) == cs@.skip(lo as int));
    let mut hi: usize = cs.len();
    assert(cs@.subrange(lo as int, hi as int) =~= cs@.skip(lo as int));
    while hi > lo && is_whitespace(cs[hi - 1])
        invariant
            lo <= hi <= cs.len(),
            trim(cs@) == trim_end(cs@.subrange(lo as int, hi as int)),
        decreases hi,
    {
        assert(cs@.subrange(lo as int, hi as int).drop_last() =~= cs@.subrange(
            lo as int,
            hi - 1,
        ));
        hi -= 1;
    }
    (lo, hi)
}

/// White-space separated words of `s`, reading from the front with `cur`
/// holding the word under way. Runs of white space separate words and yield
/// no empty word.
pub open spec fn words_acc(s: Seq<char>, cur: Seq<char>) -> Seq<Seq<char>>
    decreases s.len(),
{
    let done = if cur.len() > 0 {
        seq![cur]
    } else {
        Seq::<Seq<char>>::empty()
    };
    if s.len() == 0 {
        done
    } else if is_space(s[0]) {
        done + words_acc(s.drop_first(), Seq::empty())
    } else {
        words_acc(s.drop_first(), cur.push(s[0]))
    }
}

/// White-space separated words of `s`.
pub open spec fn words(s: Seq<char>) -> Seq<Seq<char>> {
    words_acc(s, Seq::empty())
}

/// The character sequences that a sequence of character vectors denotes.
pub open spec fn char_views(parts: Seq<Vec<char>>) -> Seq<Seq<char>> {
    parts.map_values(|p: Vec<char>| p@)
}

/// The white-space separated words of `cs[from..to]`.
pub fn words_between(cs: &Vec<char>, from: usize, to: usize) -> (found: Vec<Vec<char>>)
    requires
        from <= to <= cs.len(),
    ensures
        char_views(found@) == words(cs@.subrange(from as int, to as int)),
{
    let ghost text = cs@.subrange(from as int, to as int);
    let mut found: Vec<Vec<char>> = Vec::new();
    let mut cur: Vec<char> = Vec::new();
    let mut i: usize = from;
    assert(text.skip(0) =~= text);
    assert(char_views(found@) =~= Seq::<Seq<char>>::empty());
    assert(words(text) =~= char_views(found@) + words_acc(text.skip(0), cur@));
    while i < to
        invariant
            from <= i <= to <= cs.len(),
            text == cs@.subrange(from as int, to as int),
            words(text) == char_views(found@) + words_acc(text.skip(i - from), cur@),
        decreases to - i,
    {
        let ghost rest = text.skip(i - from);
        assert(rest.drop_first() =~= text.skip(i + 1 - from));
        assert(rest[0] == cs[i as int]);
        let c = cs[i];
        if is_whitespace(c) {
            if cur.len() > 0 {
                let ghost before = char_views(found@);
                let ghost word = cur@;
                found.push(cur);
                cur = Vec::new();
                assert(char_views(found@) =~= before.push(word));
                assert(before + (seq![word] + words_acc(rest.drop_first(), Seq::empty()))
                    =~= before.push(word) + words_acc(rest.drop_first(), Seq::empty()));
            } else {
                assert(char_views(found@) + (Seq::<Seq<char>>::empty() + words_acc(
                    rest.drop_first(),
                    Seq::empty(),
                )) =~= char_views(found@) + words_acc(rest.drop_first(), Seq::empty()));
            }
            assert(cur@ =~= Seq::<char>::empty());
        } else {
            cur.push(c);
        }
        i += 1;
    }
    assert(text.skip(i - from).len() == 0);
    if cur.len() > 0 {
        let ghost before = char_views(found@);
        let ghost word = cur@;
        found.push(cur);
        assert(char_views(found@) =~= before + seq![word]);
    } else {
        assert(char_views(found@) + Seq::<Seq<char>>::empty() =~= char_views(found@));
    }
    found
}

} // verus!
