//! Text primitives for the command language, stated over sequences of
//! characters: splitting into pieces, joining words, prefixes and numbers.

use vstd::prelude::*;

verus! {

/// The views of a sequence of strings.
pub open spec fn strings_view(v: Seq<String>) -> Seq<Seq<char>> {
    v.map_values(|w: String| w@)
}

/// The non-empty pieces of `s` between occurrences of `sep`, in order.
/// It is defined one character at a time: a separator ends a piece, any other
/// character extends the piece in progress or starts a new one.
pub open spec fn pieces(s: Seq<char>, sep: char) -> Seq<Seq<char>>
    decreases s.len(),
{
    if s.len() == 0 {
        Seq::empty()
    } else {
        let p = pieces(s.drop_last(), sep);
        let c = s.last();
        if c == sep {
            p
        } else if s.len() >= 2 && s[s.len() - 2] != sep {
            p.update(p.len() - 1, p.last().push(c))
        } else {
            p.push(seq![c])
        }
    }
}

/// The pieces of `s` so far, once the first `i` characters are read, where
/// `done` holds the finished ones and the one in progress (if any) starts at
/// `start`.
spec fn split_state(s: Seq<char>, sep: char, i: int, start: int, done: Seq<Seq<char>>) -> bool {
    if i > 0 && s[i - 1] != sep {
        &&& 0 <= start < i
        &&& pieces(s.subrange(0, i), sep) == done.push(s.subrange(start, i))
    } else {
        pieces(s.subrange(0, i), sep) == done
    }
}

/// Splits `s` at every `sep` and keeps the non-empty pieces.
pub fn split_on(s: &str, sep: char) -> (r: Vec<String>)
    ensures
        strings_view(r@) == pieces(s@, sep),
{
    let n = s.unicode_len();
    let mut r: Vec<String> = Vec::new();
    let mut start: usize = 0;
    let mut i: usize = 0;
    assert(s@.subrange(0, 0) =~= Seq::<char>::empty());
    assert(strings_view(r@) =~= Seq::<Seq<char>>::empty());
    while i < n
        invariant
            n == s@.len(),
            0 <= i <= n,
            split_state(s@, sep, i as int, start as int, strings_view(r@)),
        decreases n - i,
    {
        let c = s.get_char(i);
        let ghost prefix = s@.subrange(0, i + 1);
        assert(prefix.drop_last() =~= s@.subrange(0, i as int));
        assert(prefix.last() == c);
        assert(i > 0 ==> prefix[i - 1] == s@[i - 1]);
        let ghost done = strings_view(r@);
        if c == sep {
            if i > 0 && s.get_char(i - 1) != sep {
                let w = String::from_str(s.substring_char(start, i));
                let ghost old_r = r@;
                r.push(w);
                assert(strings_view(r@) =~= strings_view(old_r).push(w@));
            }
        } else if i > 0 && s.get_char(i - 1) != sep {
            let ghost w = s@.subrange(start as int, i as int);
            assert(s@.subrange(start as int, i + 1) =~= w.push(c));
            assert(done.push(w).update(done.len() as int, w.push(c)) =~= done.push(w.push(c)));
        } else {
            start = i;
            assert(s@.subrange(start as int, i + 1) =~= seq![c]);
        }
        i = i + 1;
    }
    if n > 0 && s.get_char(n - 1) != sep {
        let w = String::from_str(s.substring_char(start, n));
        let ghost old_r = r@;
        r.push(w);
        assert(strings_view(r@) =~= strings_view(old_r).push(w@));
    }
    assert(s@.subrange(0, n as int) =~= s@);
    r
}

/// `s` begins with `p`.
pub open spec fn has_prefix(s: Seq<char>, p: Seq<char>) -> bool {
    p.len() <= s.len() && s.subrange(0, p.len() as int) == p
}

/// Tells whether `s` begins with `p`.
pub fn starts_with(s: &str, p: &str) -> (r: bool)
    ensures
        r == has_prefix(s@, p@),
{
    let n = s.unicode_len();
    let m = p.unicode_len();
    if m > n {
        return false;
    }
    let mut i: usize = 0;
    while i < m
        invariant
            n == s@.len(),
            m == p@.len(),
            m <= n,
            0 <= i <= m,
            forall|j: int| 0 <= j < i ==> s@[j] == p@[j],
        decreases m - i,
    {
        if s.get_char(i) != p.get_char(i) {
            assert(s@.subrange(0, m as int)[i as int] != p@[i as int]);
            return false;
        }
        i = i + 1;
    }
    assert(s@.subrange(0, m as int) =~= p@);
    true
}

/// Tells whether `s` and `t` hold the same characters.
pub fn same_text(s: &str, t: &str) -> (r: bool)
    ensures
        r == (s@ == t@),
{
    if s.unicode_len() != t.unicode_len() {
        return false;
    }
    let r = starts_with(s, t);
    assert(s@ =~= s@.subrange(0, t@.len() as int));
    r
}

/// The words joined with one space between each two.
pub open spec fn join_words(ws: Seq<Seq<char>>) -> Seq<char>
    decreases ws.len(),
{
    if ws.len() == 0 {
        Seq::empty()
    } else if ws.len() == 1 {
        ws[0]
    } else {
        join_words(ws.drop_last()) + seq![' '] + ws.last()
    }
}

/// Joins the words from position `from` on, with one space between each two.
pub fn join_from(ws: &Vec<String>, from: usize) -> (r: String)
    requires
        from <= ws@.len(),
    ensures
        r@ == join_words(strings_view(ws@).subrange(from as int, ws@.len() as int)),
{
    let mut r = String::new();
    let mut i: usize = from;
    assert(strings_view(ws@).subrange(from as int, from as int) =~= Seq::<Seq<char>>::empty());
    while i < ws.len()
        invariant
            from <= i <= ws@.len(),
            r@ == join_words(strings_view(ws@).subrange(from as int, i as int)),
        decreases ws@.len() - i,
    {
        let ghost before = strings_view(ws@).subrange(from as int, i as int);
        let ghost after = strings_view(ws@).subrange(from as int, i + 1);
        assert(after.drop_last() =~= before);
        assert(after[after.len() - 1] == ws@[i as int]@);
        if i > from {
            proof {
                reveal_strlit(" ");
            }
            r.append(" ");
        } else {
            assert(r@ =~= Seq::<char>::empty());
        }
        r.append(ws[i].as_str());
        assert(r@ =~= join_words(after));
        i = i + 1;
    }
    r
}

/// `c` is one of the digits 0 to 9.
pub open spec fn is_digit(c: char) -> bool {
    '0' <= c && c <= '9'
}

/// The value of the digit `c`.
pub open spec fn digit_value(c: char) -> int {
    c as int - '0' as int
}

/// The number that the digits `d` write in base ten.
pub open spec fn decimal_value(d: Seq<char>) -> int
    decreases d.len(),
{
    if d.len() == 0 {
        0
    } else {
        10 * decimal_value(d.drop_last()) + digit_value(d.last())
    }
}

/// `s` with one leading `+` taken away, if it has one.
pub open spec fn unsigned_digits(s: Seq<char>) -> Seq<char> {
    if s.len() > 0 && s[0] == '+' {
        s.drop_first()
    } else {
        s
    }
}

/// The 16-bit number that `s` writes, as Rust reads an unsigned integer:
/// an optional `+`, then one digit or more, with a value that fits.
pub open spec fn u16_of(s: Seq<char>) -> Option<u16> {
    let d = unsigned_digits(s);
    if d.len() > 0 && (forall|i: int| 0 <= i < d.len() ==> is_digit(#[trigger] d[i]))
        && decimal_value(d) <= u16::MAX {
        Some(decimal_value(d) as u16)
    } else {
        None
    }
}

proof fn lemma_decimal_value_nonneg(d: Seq<char>)
    requires
        forall|i: int| 0 <= i < d.len() ==> is_digit(#[trigger] d[i]),
    ensures
        decimal_value(d) >= 0,
    decreases d.len(),
{
    if d.len() > 0 {
        lemma_decimal_value_nonneg(d.drop_last());
    }
}

/// Reads a 16-bit unsigned number.
pub fn parse_u16(s: &str) -> (r: Option<u16>)
    ensures
        r == u16_of(s@),
{
    let n = s.unicode_len();
    let mut i: usize = 0;
    if n > 0 && s.get_char(0) == '+' {
        i = 1;
    }
    let ghost d = unsigned_digits(s@);
    assert(d =~= s@.subrange(i as int, n as int));
    if i == n {
        return None;
    }
    let first = i;
    // the value read so far, held at 65536 once it is larger
    let mut acc: u64 = 0;
    assert(d.subrange(0, 0) =~= Seq::<char>::empty());
    while i < n
        invariant
            n == s@.len(),
            first <= i <= n,
            d == unsigned_digits(s@),
            d =~= s@.subrange(first as int, n as int),
            forall|j: int| 0 <= j < i - first ==> is_digit(#[trigger] d[j]),
            acc as int == if decimal_value(d.subrange(0, i - first)) <= 65536 {
                decimal_value(d.subrange(0, i - first))
            } else {
                65536
            },
        decreases n - i,
    {
        let c = s.get_char(i);
        if !('0' <= c && c <= '9') {
            assert(!is_digit(d[i - first]));
            return None;
        }
        let ghost before = d.subrange(0, i - first);
        let ghost after = d.subrange(0, i - first + 1);
        assert(after.drop_last() =~= before);
        assert(after.last() == c);
        proof {
            lemma_decimal_value_nonneg(before);
        }
        let v = (c as u32 - '0' as u32) as u64;
        acc = acc * 10 + v;
        if acc > 65536 {
            acc = 65536;
        }
        i = i + 1;
    }
    assert(d.subrange(0, n - first) =~= d);
    if acc <= 65535 {
        Some(acc as u16)
    } else {
        None
    }
}

/// The text of the digit `d`.
pub open spec fn digit_text(d: nat) -> Seq<char> {
    if d == 0 {
        "0"@
    } else if d == 1 {
        "1"@
    } else if d == 2 {
        "2"@
    } else if d == 3 {
        "3"@
    } else if d == 4 {
        "4"@
    } else if d == 5 {
        "5"@
    } else if d == 6 {
        "6"@
    } else if d == 7 {
        "7"@
    } else if d == 8 {
        "8"@
    } else {
        "9"@
    }
}

/// `n` written in base ten, without leading zeros.
pub open spec fn decimal(n: nat) -> Seq<char>
    decreases n,
{
    if n < 10 {
        digit_text(n)
    } else {
        decimal(n / 10) + digit_text(n % 10)
    }
}

fn digit_str(d: usize) -> (r: &'static str)
    requires
        d < 10,
    ensures
        r@ == digit_text(d as nat),
{
    if d == 0 {
        "0"
    } else if d == 1 {
        "1"
    } else if d == 2 {
        "2"
    } else if d == 3 {
        "3"
    } else if d == 4 {
        "4"
    } else if d == 5 {
        "5"
    } else if d == 6 {
        "6"
    } else if d == 7 {
        "7"
    } else if d == 8 {
        "8"
    } else {
        "9"
    }
}

/// Writes `n` in base ten.
pub fn decimal_text(n: usize) -> (r: String)
    ensures
        r@ == decimal(n as nat),
{
    let mut acc = String::from_str(digit_str(n % 10));
    let mut m: usize = n / 10;
    while m > 0
        invariant
            decimal(n as nat) == if m == 0 {
                acc@
            } else {
                decimal(m as nat) + acc@
            },
        decreases m,
    {
        let ghost old_acc = acc@;
        let d = String::from_str(digit_str(m % 10));
        acc = d.concat(acc.as_str());
        if m >= 10 {
            assert(decimal(m as nat) + old_acc =~= decimal((m / 10) as nat) + acc@);
        }
        m = m / 10;
    }
    acc
}

} // verus!
