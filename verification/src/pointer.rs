//! RFC 6901 JSON Pointers: escaping reference tokens and building a pointer
//! from the path a deserializer reports.

use crate::error_message::opt_str;
use vstd::prelude::*;

verus! {

/// One reference token escaped: `~` becomes `~0`, `/` becomes `~1`.
pub open spec fn escape_char(c: char) -> Seq<char> {
    if c == '~' {
        seq!['~', '0']
    } else if c == '/' {
        seq!['~', '1']
    } else {
        seq![c]
    }
}

/// A reference token escaped per RFC 6901, character by character.
pub open spec fn escaped(s: Seq<char>) -> Seq<char>
    decreases s.len(),
{
    if s.len() == 0 {
        Seq::empty()
    } else {
        escaped(s.drop_last()) + escape_char(s.last())
    }
}

/// An escaped token read back: `~0` is `~`, `~1` is `/`.
pub open spec fn unescaped(t: Seq<char>) -> Seq<char>
    decreases t.len(),
{
    if t.len() == 0 {
        Seq::empty()
    } else if t.len() >= 2 && t[t.len() - 2] == '~' && t.last() == '0' {
        unescaped(t.subrange(0, t.len() - 2)).push('~')
    } else if t.len() >= 2 && t[t.len() - 2] == '~' && t.last() == '1' {
        unescaped(t.subrange(0, t.len() - 2)).push('/')
    } else {
        unescaped(t.drop_last()).push(t.last())
    }
}

/// Escape a reference token per RFC 6901: `~` → `~0`, `/` → `~1`.
pub fn escape_token(token: &str) -> (r: String)
    ensures
        r@ == escaped(token@),
{
    let n = token.unicode_len();
    let mut out = String::new();
    let mut i: usize = 0;
    proof {
        assert(token@.take(0) =~= Seq::<char>::empty());
    }
    while i < n
        invariant
            n == token@.len(),
            i <= n,
            out@ == escaped(token@.take(i as int)),
        decreases n - i,
    {
        let c = token.get_char(i);
        proof {
            assert(token@.take(i + 1).drop_last() =~= token@.take(i as int));
            assert(token@.take(i + 1).last() == c);
        }
        if c == '~' {
            out.append("~0");
            proof {
                reveal_strlit("~0");
            }
        } else if c == '/' {
            out.append("~1");
            proof {
                reveal_strlit("~1");
            }
        } else {
            let one = token.substring_char(i, i + 1);
            proof {
                assert(one@ =~= seq![c]);
            }
            out.append(one);
        }
        i = i + 1;
    }
    proof {
        assert(token@.take(n as int) =~= token@);
    }
    out
}

/// An escaped token holds no `/`, so it never splits a pointer.
pub proof fn lemma_escaped_has_no_slash(s: Seq<char>)
    ensures
        forall|i: int| 0 <= i < escaped(s).len() ==> escaped(s)[i] != '/',
    decreases s.len(),
{
    if s.len() > 0 {
        lemma_escaped_has_no_slash(s.drop_last());
        let a = escaped(s.drop_last());
        let b = escape_char(s.last());
        assert forall|i: int| 0 <= i < escaped(s).len() implies escaped(s)[i] != '/' by {
            if i < a.len() {
                assert(escaped(s)[i] == a[i]);
            } else {
                assert(escaped(s)[i] == b[i - a.len()]);
            }
        }
    }
}

/// Escaping loses nothing: reading an escaped token back gives the token.
pub proof fn lemma_unescape_escaped(s: Seq<char>)
    ensures
        unescaped(escaped(s)) == s,
    decreases s.len(),
{
    if s.len() > 0 {
        lemma_unescape_escaped(s.drop_last());
        let a = escaped(s.drop_last());
        let c = s.last();
        let t = escaped(s);
        if c == '~' {
            assert(t.subrange(0, t.len() - 2) =~= a);
        } else if c == '/' {
            assert(t.subrange(0, t.len() - 2) =~= a);
        } else {
            assert(t.drop_last() =~= a);
            if t.len() >= 2 && t[t.len() - 2] == '~' {
                lemma_escaped_tilde_is_followed(s.drop_last());
            }
        }
        assert(s.drop_last().push(c) =~= s);
    }
}

/// In an escaped token, a `~` is never the last character.
proof fn lemma_escaped_tilde_is_followed(s: Seq<char>)
    ensures
        escaped(s).len() > 0 ==> escaped(s).last() != '~',
    decreases s.len(),
{
    if s.len() > 0 {
        lemma_escaped_tilde_is_followed(s.drop_last());
    }
}

/// The decimal digit `d` (`0 <= d < 10`).
pub open spec fn digit_char(d: nat) -> char {
    if d == 0 {
        '0'
    } else if d == 1 {
        '1'
    } else if d == 2 {
        '2'
    } else if d == 3 {
        '3'
    } else if d == 4 {
        '4'
    } else if d == 5 {
        '5'
    } else if d == 6 {
        '6'
    } else if d == 7 {
        '7'
    } else if d == 8 {
        '8'
    } else {
        '9'
    }
}

/// The decimal rendering of `n`, without leading zeros.
pub open spec fn decimal(n: nat) -> Seq<char>
    decreases n,
{
    if n < 10 {
        seq![digit_char(n)]
    } else {
        decimal(n / 10) + seq![digit_char(n % 10)]
    }
}

/// The one-character string of a decimal digit.
fn digit_str(d: u64) -> (r: &'static str)
    requires
        d < 10,
    ensures
        r@ == seq![digit_char(d as nat)],
{
    proof {
        reveal_strlit("0");
        reveal_strlit("1");
        reveal_strlit("2");
        reveal_strlit("3");
        reveal_strlit("4");
        reveal_strlit("5");
        reveal_strlit("6");
        reveal_strlit("7");
        reveal_strlit("8");
        reveal_strlit("9");
    }
    if d == 0 {
        "0"
    } else if d == 1 {
        "1"
    } else if d == 2 {
        "2"
    } else if d == 3 {
        "3"
    } else if d == 4 {
        "4"
    } else if d == 5 {
        "5"
    } else if d == 6 {
        "6"
    } else if d == 7 {
        "7"
    } else if d == 8 {
        "8"
    } else {
        "9"
    }
}

/// Append the decimal rendering of `n` to `out`.
pub fn push_decimal(n: u64, out: &mut String)
    ensures
        final(out)@ == old(out)@ + decimal(n as nat),
    decreases n,
{
    if n >= 10 {
        push_decimal(n / 10, out);
    }
    out.append(digit_str(n % 10));
    proof {
        if n >= 10 {
            assert(old(out)@ + decimal(n as nat) =~= old(out)@ + decimal((n / 10) as nat) + seq![digit_char((n % 10) as nat)]);
        }
    }
}

/// The decimal rendering of `n`.
pub fn decimal_string(n: u64) -> (r: String)
    ensures
        r@ == decimal(n as nat),
{
    let mut out = String::new();
    push_decimal(n, &mut out);
    proof {
        assert(out@ =~= decimal(n as nat));
    }
    out
}

/// One step of the path to a value inside a JSON document.
#[derive(Debug, Clone, PartialEq)]
pub enum PathSegment {
    /// An element of an array, by index.
    Index { index: usize },
    /// A member of an object, by key.
    Key { key: String },
    /// A variant of an enum, by name.
    Variant { variant: String },
    /// A step the deserializer could not name.
    Unknown,
}

/// The reference token of one path segment: an index in decimal, a key or a
/// variant escaped, and `?` for a step that has no name.
pub open spec fn segment_token(s: PathSegment) -> Seq<char> {
    match s {
        PathSegment::Index { index } => decimal(index as nat),
        PathSegment::Key { key } => escaped(key@),
        PathSegment::Variant { variant } => escaped(variant@),
        PathSegment::Unknown => seq!['?'],
    }
}

/// The pointer text of a path: each segment as `/` and its token, in order.
pub open spec fn pointer_text(path: Seq<PathSegment>) -> Seq<char>
    decreases path.len(),
{
    if path.len() == 0 {
        Seq::empty()
    } else {
        pointer_text(path.drop_last()) + seq!['/'] + segment_token(path.last())
    }
}

/// The JSON Pointer of a path, `None` for an empty path (the document itself
/// has no locatable field).
pub open spec fn pointer_of(path: Seq<PathSegment>) -> Option<Seq<char>> {
    if path.len() == 0 {
        None
    } else {
        Some(pointer_text(path))
    }
}

/// Convert a deserializer's path into an RFC 6901 JSON Pointer
/// (`/data/attributes/email`); `None` for an empty path.
pub fn json_pointer(path: &Vec<PathSegment>) -> (r: Option<String>)
    ensures
        opt_str(r) == pointer_of(path@),
{
    let mut pointer = String::new();
    let mut i: usize = 0;
    proof {
        assert(path@.take(0) =~= Seq::<PathSegment>::empty());
    }
    while i < path.len()
        invariant
            i <= path@.len(),
            pointer@ == pointer_text(path@.take(i as int)),
        decreases path@.len() - i,
    {
        proof {
            assert(path@.take(i + 1).drop_last() =~= path@.take(i as int));
            assert(path@.take(i + 1).last() == path@[i as int]);
            reveal_strlit("/");
            reveal_strlit("?");
        }
        pointer.append("/");
        match &path[i] {
            PathSegment::Index { index } => {
                push_decimal(*index as u64, &mut pointer);
            },
            PathSegment::Key { key } => {
                let token = escape_token(key.as_str());
                pointer.append(token.as_str());
            },
            PathSegment::Variant { variant } => {
                let token = escape_token(variant.as_str());
                pointer.append(token.as_str());
            },
            PathSegment::Unknown => {
                pointer.append("?");
            },
        }
        proof {
            assert(pointer@ =~= pointer_text(path@.take(i + 1)));
        }
        i = i + 1;
    }
    proof {
        assert(path@.take(i as int) =~= path@);
    }
    if path.len() == 0 {
        None
    } else {
        Some(pointer)
    }
}

/// A pointer built from a non-empty path starts with `/`.
pub proof fn lemma_pointer_starts_with_slash(path: Seq<PathSegment>)
    requires
        path.len() > 0,
    ensures
        pointer_text(path).len() > 0,
        pointer_text(path)[0] == '/',
    decreases path.len(),
{
    let prefix = pointer_text(path.drop_last());
    if path.len() > 1 {
        lemma_pointer_starts_with_slash(path.drop_last());
    } else {
        assert(prefix.len() == 0);
    }
    assert(pointer_text(path) == prefix + seq!['/'] + segment_token(path.last()));
    assert((prefix + seq!['/'] + segment_token(path.last()))[0] == '/');
}


/// How many times `c` occurs in `s`.
pub open spec fn count_char(s: Seq<char>, c: char) -> nat
    decreases s.len(),
{
    if s.len() == 0 {
        0
    } else {
        count_char(s.drop_last(), c) + if s.last() == c {
            1nat
        } else {
            0nat
        }
    }
}

proof fn lemma_count_concat(a: Seq<char>, b: Seq<char>, c: char)
    ensures
        count_char(a + b, c) == count_char(a, c) + count_char(b, c),
    decreases b.len(),
{
    if b.len() > 0 {
        assert((a + b).drop_last() =~= a + b.drop_last());
        lemma_count_concat(a, b.drop_last(), c);
    } else {
        assert(a + b =~= a);
    }
}

proof fn lemma_count_absent(s: Seq<char>, c: char)
    requires
        forall|i: int| 0 <= i < s.len() ==> s[i] != c,
    ensures
        count_char(s, c) == 0,
    decreases s.len(),
{
    if s.len() > 0 {
        lemma_count_absent(s.drop_last(), c);
    }
}

proof fn lemma_decimal_has_no_slash(n: nat)
    ensures
        forall|i: int| 0 <= i < decimal(n).len() ==> decimal(n)[i] != '/',
    decreases n,
{
    if n >= 10 {
        lemma_decimal_has_no_slash(n / 10);
        let a = decimal(n / 10);
        assert forall|i: int| 0 <= i < decimal(n).len() implies decimal(n)[i] != '/' by {
            if i < a.len() {
                assert(decimal(n)[i] == a[i]);
            }
        }
    }
}

/// A segment's token holds no `/`.
pub proof fn lemma_token_has_no_slash(s: PathSegment)
    ensures
        forall|i: int| 0 <= i < segment_token(s).len() ==> segment_token(s)[i] != '/',
{
    match s {
        PathSegment::Index { index } => lemma_decimal_has_no_slash(index as nat),
        PathSegment::Key { key } => lemma_escaped_has_no_slash(key@),
        PathSegment::Variant { variant } => lemma_escaped_has_no_slash(variant@),
        PathSegment::Unknown => {},
    }
}

/// The pointer of a path joined from two is the two pointers joined, and the
/// pointer of one segment is `/` and its token: each segment contributes its
/// own `/`-led token, in path order.
pub proof fn lemma_pointer_text_concat(p: Seq<PathSegment>, q: Seq<PathSegment>)
    ensures
        pointer_text(p + q) == pointer_text(p) + pointer_text(q),
    decreases q.len(),
{
    if q.len() > 0 {
        assert((p + q).drop_last() =~= p + q.drop_last());
        assert((p + q).last() == q.last());
        lemma_pointer_text_concat(p, q.drop_last());
        assert(pointer_text(p + q) =~= pointer_text(p) + pointer_text(q));
    } else {
        assert(p + q =~= p);
        assert(pointer_text(p) + pointer_text(q) =~= pointer_text(p));
    }
}

/// The pointer of a single segment is `/` followed by its token.
pub proof fn lemma_pointer_text_single(s: PathSegment)
    ensures
        pointer_text(seq![s]) == seq!['/'] + segment_token(s),
{
    assert(seq![s].drop_last() =~= Seq::<PathSegment>::empty());
    assert(seq![s].last() == s);
    assert(pointer_text(Seq::<PathSegment>::empty()) == Seq::<char>::empty());
    assert(Seq::<char>::empty() + seq!['/'] + segment_token(s) =~= seq!['/'] + segment_token(s));
}

/// A pointer holds exactly one `/` per segment of its path.
pub proof fn lemma_pointer_slash_count(path: Seq<PathSegment>)
    ensures
        count_char(pointer_text(path), '/') == path.len(),
    decreases path.len(),
{
    if path.len() > 0 {
        lemma_pointer_slash_count(path.drop_last());
        lemma_token_has_no_slash(path.last());
        lemma_count_absent(segment_token(path.last()), '/');
        let pre = pointer_text(path.drop_last());
        lemma_count_concat(pre + seq!['/'], segment_token(path.last()), '/');
        lemma_count_concat(pre, seq!['/'], '/');
        assert(seq!['/'].drop_last() =~= Seq::<char>::empty());
        assert(seq!['/'].last() == '/');
        assert(count_char(Seq::<char>::empty(), '/') == 0);
        assert(count_char(seq!['/'], '/') == 1);
        assert(pointer_text(path) == pre + seq!['/'] + segment_token(path.last()));
    }
}


/// The number a string of decimal digits denotes.
pub open spec fn digits_value(s: Seq<char>) -> int
    decreases s.len(),
{
    if s.len() == 0 {
        0
    } else {
        digits_value(s.drop_last()) * 10 + (s.last() as int - '0' as int)
    }
}

/// A decimal digit.
pub open spec fn is_digit(c: char) -> bool {
    '0' as int <= c as int <= '9' as int
}

/// The decimal rendering of a number reads back as that number, is made of
/// digits only, and has no leading zero.
pub proof fn lemma_decimal_reads_back(n: nat)
    ensures
        digits_value(decimal(n)) == n,
        decimal(n).len() > 0,
        forall|k: int| 0 <= k < decimal(n).len() ==> is_digit(#[trigger] decimal(n)[k]),
        decimal(n).len() > 1 ==> decimal(n)[0] != '0',
        decimal(n).len() == 1 <==> n < 10,
    decreases n,
{
    assert(digit_char(0) as int == '0' as int);
    if n < 10 {
        let d = decimal(n);
        assert(d.drop_last() =~= Seq::<char>::empty());
        assert(d.last() == digit_char(n));
        assert(digits_value(Seq::<char>::empty()) == 0);
        assert(digit_char(n) as int - '0' as int == n);
    } else {
        lemma_decimal_reads_back(n / 10);
        let pre = decimal(n / 10);
        let d = decimal(n);
        assert(d.drop_last() =~= pre);
        assert(d.last() == digit_char(n % 10));
        assert(digit_char(n % 10) as int - '0' as int == n % 10);
        assert(digits_value(d) == (n / 10) as int * 10 + n % 10);
        assert(n == (n / 10) * 10 + n % 10);
        assert forall|k: int| 0 <= k < d.len() implies is_digit(#[trigger] d[k]) by {
            if k < pre.len() {
                assert(d[k] == pre[k]);
            }
        }
        assert(d[0] == pre[0]);
        if pre.len() == 1 {
            assert(n / 10 >= 1);
            assert(n / 10 < 10);
            assert(pre == seq![digit_char(n / 10)]);
            assert(pre[0] == digit_char(n / 10));
        }
    }
}

} // verus!
