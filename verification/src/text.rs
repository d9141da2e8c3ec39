//! Text helpers: the handful of string operations the gateway's rules rest on,
//! each stated over the sequence of characters.

use vstd::prelude::*;
use vstd::std_specs::iter::IteratorSpec;
use vstd::utf8::{decode_utf8, encode_utf8, valid_utf8};

verus! {

// ---------------------------------------------------------------- models

/// The texts of a list.
pub open spec fn texts(v: Seq<String>) -> Seq<Seq<char>> {
    Seq::new(v.len(), |i: int| v[i]@)
}

/// The text of an optional string.
pub open spec fn opt_text(o: Option<String>) -> Option<Seq<char>> {
    match o {
        Some(s) => Some(s@),
        None => None,
    }
}

/// The text of an optional string slice.
pub open spec fn opt_str(o: Option<&str>) -> Option<Seq<char>> {
    match o {
        Some(s) => Some(s@),
        None => None,
    }
}

/// The first position at or after `from` that holds `c`, or the length.
pub open spec fn find_from(s: Seq<char>, c: char, from: int) -> int
    decreases s.len() - from,
{
    if from >= s.len() {
        s.len() as int
    } else if s[from] == c {
        from
    } else {
        find_from(s, c, from + 1)
    }
}

/// What stands before and after the first `c`, if there is one.
pub open spec fn split_once_at(s: Seq<char>, c: char) -> Option<(Seq<char>, Seq<char>)> {
    let i = find_from(s, c, 0);
    if i < s.len() {
        Some((s.take(i), s.skip(i + 1)))
    } else {
        None
    }
}

/// The pieces of a text between the occurrences of `c`.
pub open spec fn pieces(s: Seq<char>, c: char) -> Seq<Seq<char>>
    decreases s.len(),
{
    let i = find_from(s, c, 0);
    if 0 <= i < s.len() {
        seq![s.take(i)] + pieces(s.skip(i + 1), c)
    } else {
        seq![s]
    }
}

/// The texts of a list with `sep` between neighbours.
pub open spec fn joined(parts: Seq<Seq<char>>, sep: Seq<char>) -> Seq<char>
    decreases parts.len(),
{
    if parts.len() == 0 {
        Seq::empty()
    } else if parts.len() == 1 {
        parts[0]
    } else {
        joined(parts.drop_last(), sep) + sep + parts.last()
    }
}

/// Whether `needle` stands in `s` at position `at`.
pub open spec fn stands_at(s: Seq<char>, needle: Seq<char>, at: int) -> bool {
    &&& 0 <= at <= s.len() - needle.len()
    &&& s.subrange(at, at + needle.len()) == needle
}

/// Whether `needle` stands anywhere in `s`.
pub open spec fn has_text(s: Seq<char>, needle: Seq<char>) -> bool {
    exists|at: int| stands_at(s, needle, at)
}

/// White space in the sense of Unicode's `White_Space` property.
pub open spec fn is_white(c: char) -> bool {
    let n = c as u32;
    ||| 0x9 <= n <= 0xd
    ||| n == 0x20 || n == 0x85 || n == 0xa0 || n == 0x1680
    ||| 0x2000 <= n <= 0x200a
    ||| n == 0x2028 || n == 0x2029 || n == 0x202f || n == 0x205f || n == 0x3000
}

/// A text without the white space at its front.
pub open spec fn trimmed_front(s: Seq<char>) -> Seq<char>
    decreases s.len(),
{
    if s.len() > 0 && is_white(s[0]) {
        trimmed_front(s.skip(1))
    } else {
        s
    }
}

/// A text without the white space at its back.
pub open spec fn trimmed_back(s: Seq<char>) -> Seq<char>
    decreases s.len(),
{
    if s.len() > 0 && is_white(s.last()) {
        trimmed_back(s.drop_last())
    } else {
        s
    }
}

/// A text without the white space around it.
pub open spec fn trimmed(s: Seq<char>) -> Seq<char> {
    trimmed_back(trimmed_front(s))
}

/// The digit character of a value below ten.
pub open spec fn digit_char(d: int) -> char {
    if d == 0 {
        '0'
    } else if d == 1 {
        '1'
    } else if d == 2 {
        '2'
    } else if d == 3 {
        '3'
    } else if d == 4 {
        '4'
    } else if d == 5 {
        '5'
    } else if d == 6 {
        '6'
    } else if d == 7 {
        '7'
    } else if d == 8 {
        '8'
    } else {
        '9'
    }
}

/// The decimal digits of a number, without leading zeros.
pub open spec fn decimal(n: nat) -> Seq<char>
    decreases n,
{
    if n < 10 {
        seq![digit_char(n as int)]
    } else {
        decimal(n / 10).push(digit_char((n % 10) as int))
    }
}

/// The decimal digits of a signed number, with a minus sign where it is below zero.
pub open spec fn signed_decimal(n: int) -> Seq<char> {
    if n < 0 {
        seq!['-'] + decimal((-n) as nat)
    } else {
        decimal(n as nat)
    }
}

/// The octal digits of a number, without leading zeros.
pub open spec fn octal(n: nat) -> Seq<char>
    decreases n,
{
    if n < 8 {
        seq![digit_char(n as int)]
    } else {
        octal(n / 8).push(digit_char((n % 8) as int))
    }
}

pub open spec fn is_digit(c: char) -> bool {
    '0' <= c && c <= '9'
}

/// The value of a run of decimal digits.
pub open spec fn digits_value(s: Seq<char>) -> int
    decreases s.len(),
{
    if s.len() == 0 {
        0
    } else {
        digits_value(s.drop_last()) * 10 + (s.last() as int - '0' as int)
    }
}

pub open spec fn all_digits(s: Seq<char>) -> bool {
    s.len() > 0 && forall|i: int| 0 <= i < s.len() ==> is_digit(#[trigger] s[i])
}

/// The number that an unsigned decimal text stands for, with or without a plus sign.
pub open spec fn unsigned_value(s: Seq<char>) -> Option<int> {
    let body = if s.len() > 0 && s[0] == '+' {
        s.skip(1)
    } else {
        s
    };
    if all_digits(body) {
        Some(digits_value(body))
    } else {
        None
    }
}

/// The number that a signed decimal text stands for.
pub open spec fn signed_value(s: Seq<char>) -> Option<int> {
    if s.len() > 0 && s[0] == '-' {
        if all_digits(s.skip(1)) {
            Some(-digits_value(s.skip(1)))
        } else {
            None
        }
    } else {
        unsigned_value(s)
    }
}

/// The digit character of a value below sixteen.
pub open spec fn hex_char(d: int) -> char {
    if d < 10 {
        digit_char(d)
    } else if d == 10 {
        'a'
    } else if d == 11 {
        'b'
    } else if d == 12 {
        'c'
    } else if d == 13 {
        'd'
    } else if d == 14 {
        'e'
    } else {
        'f'
    }
}

/// Two lower-case hexadecimal digits for each byte.
pub open spec fn hex(bytes: Seq<u8>) -> Seq<char>
    decreases bytes.len(),
{
    if bytes.len() == 0 {
        Seq::empty()
    } else {
        hex(bytes.drop_last()) + seq![
            hex_char(bytes.last() as int / 16),
            hex_char(bytes.last() as int % 16),
        ]
    }
}

// ---------------------------------------------------------------- building

pub fn cat2(a: &str, b: &str) -> (r: String)
    ensures
        r@ == a@ + b@,
{
    let mut s = a.to_owned();
    s.append(b);
    s
}

pub fn cat3(a: &str, b: &str, c: &str) -> (r: String)
    ensures
        r@ == a@ + b@ + c@,
{
    let mut s = a.to_owned();
    s.append(b);
    s.append(c);
    s
}

pub fn cat4(a: &str, b: &str, c: &str, d: &str) -> (r: String)
    ensures
        r@ == a@ + b@ + c@ + d@,
{
    let mut s = cat3(a, b, c);
    s.append(d);
    s
}

pub fn cat5(a: &str, b: &str, c: &str, d: &str, e: &str) -> (r: String)
    ensures
        r@ == a@ + b@ + c@ + d@ + e@,
{
    let mut s = cat4(a, b, c, d);
    s.append(e);
    s
}

pub fn cat7(a: &str, b: &str, c: &str, d: &str, e: &str, f: &str, g: &str) -> (r: String)
    ensures
        r@ == a@ + b@ + c@ + d@ + e@ + f@ + g@,
{
    let mut s = cat5(a, b, c, d, e);
    s.append(f);
    s.append(g);
    s
}

/// Writes a list of texts with `sep` between neighbours.
pub fn join(parts: &Vec<String>, sep: &str) -> (r: String)
    ensures
        r@ == joined(texts(parts@), sep@),
{
    let mut out = String::new();
    let mut i: usize = 0;
    while i < parts.len()
        invariant
            i <= parts.len(),
            out@ == joined(texts(parts@).take(i as int), sep@),
        decreases parts.len() - i,
    {
        proof {
            let next = texts(parts@).take(i + 1);
            assert(next.drop_last() =~= texts(parts@).take(i as int));
        }
        if i > 0 {
            out.append(sep);
        }
        let ghost before = out@;
        out.append(parts[i].as_str());
        assert(out@ =~= before + parts@[i as int]@);
        i += 1;
    }
    assert(texts(parts@).take(i as int) =~= texts(parts@));
    out
}

fn digit_text(d: u8) -> (r: &'static str)
    requires
        d < 16,
    ensures
        r@ == seq![hex_char(d as int)],
{
    proof {
        reveal_strlit("0");
        reveal_strlit("1");
        reveal_strlit("2");
        reveal_strlit("3");
        reveal_strlit("4");
        reveal_strlit("5");
        reveal_strlit("6");
        reveal_strlit("7");
        reveal_strlit("8");
        reveal_strlit("9");
        reveal_strlit("a");
        reveal_strlit("b");
        reveal_strlit("c");
        reveal_strlit("d");
        reveal_strlit("e");
        reveal_strlit("f");
    }
    if d == 0 {
        "0"
    } else if d == 1 {
        "1"
    } else if d == 2 {
        "2"
    } else if d == 3 {
        "3"
    } else if d == 4 {
        "4"
    } else if d == 5 {
        "5"
    } else if d == 6 {
        "6"
    } else if d == 7 {
        "7"
    } else if d == 8 {
        "8"
    } else if d == 9 {
        "9"
    } else if d == 10 {
        "a"
    } else if d == 11 {
        "b"
    } else if d == 12 {
        "c"
    } else if d == 13 {
        "d"
    } else if d == 14 {
        "e"
    } else {
        "f"
    }
}

/// Writes a number in decimal.
pub fn decimal_text(n: u64) -> (r: String)
    ensures
        r@ == decimal(n as nat),
    decreases n,
{
    if n < 10 {
        digit_text(n as u8).to_owned()
    } else {
        let mut s = decimal_text(n / 10);
        s.append(digit_text((n % 10) as u8));
        s
    }
}

/// Writes a number in octal.
pub fn octal_text(n: u32) -> (r: String)
    ensures
        r@ == octal(n as nat),
    decreases n,
{
    if n < 8 {
        digit_text(n as u8).to_owned()
    } else {
        let mut s = octal_text(n / 8);
        s.append(digit_text((n % 8) as u8));
        s
    }
}

/// Writes a signed number in decimal.
pub fn signed_decimal_text(n: i64) -> (r: String)
    ensures
        r@ == signed_decimal(n as int),
{
    if n < 0 {
        let mut s = "-".to_owned();
        let magnitude: u64 = if n == i64::MIN {
            0x8000_0000_0000_0000u64
        } else {
            (-n) as u64
        };
        s.append(decimal_text(magnitude).as_str());
        proof {
            reveal_strlit("-");
            assert("-"@ =~= seq!['-']);
        }
        s
    } else {
        decimal_text(n as u64)
    }
}

/// Writes bytes as lower-case hexadecimal digits.
pub fn hex_text(bytes: &[u8]) -> (r: String)
    ensures
        r@ == hex(bytes@),
{
    let mut out = String::new();
    let mut i: usize = 0;
    while i < bytes.len()
        invariant
            i <= bytes.len(),
            out@ == hex(bytes@.take(i as int)),
        decreases bytes.len() - i,
    {
        assert(bytes@.take(i + 1).drop_last() =~= bytes@.take(i as int));
        let ghost before = out@;
        out.append(digit_text(bytes[i] / 16));
        out.append(digit_text(bytes[i] % 16));
        assert(out@ =~= before + seq![
            hex_char(bytes@[i as int] as int / 16),
            hex_char(bytes@[i as int] as int % 16),
        ]);
        i += 1;
    }
    assert(bytes@.take(i as int) =~= bytes@);
    out
}

// ---------------------------------------------------------------- reading

/// The characters of a text, in order.
pub fn chars_of(s: &str) -> (r: Vec<char>)
    ensures
        r@ == s@,
{
    let mut out: Vec<char> = Vec::new();
    for c in it: s.chars()
        invariant
            it.seq() == s@,
            out@ == s@.take(it.index()),
    {
        out.push(c);
    }
    out
}

/// Whether two texts hold the same characters.
pub fn same(a: &str, b: &str) -> (r: bool)
    ensures
        r == (a@ == b@),
{
    let mut left = a.chars();
    let mut right = b.chars();
    let ghost mut i: int = 0;
    loop
        invariant
            0 <= i <= a@.len(),
            i <= b@.len(),
            left.remaining() == a@.skip(i),
            right.remaining() == b@.skip(i),
            a@.take(i) == b@.take(i),
        decreases a@.len() - i,
    {
        let x = left.next();
        let y = right.next();
        match (x, y) {
            (None, None) => {
                proof {
                    assert(a@ == a@.take(i));
                    assert(b@ == b@.take(i));
                }
                return true;
            },
            (Some(c), Some(d)) => {
                if c != d {
                    return false;
                }
                proof {
                    assert(a@.take(i + 1) == a@.take(i).push(c));
                    assert(b@.take(i + 1) == b@.take(i).push(d));
                    i = i + 1;
                }
            },
            _ => {
                return false;
            },
        }
    }
}

/// Whether two optional texts are the same.
pub fn same_option(a: Option<&str>, b: Option<&str>) -> (r: bool)
    ensures
        r == (opt_str(a) == opt_str(b)),
{
    match (a, b) {
        (None, None) => true,
        (Some(x), Some(y)) => same(x, y),
        _ => false,
    }
}

/// A copy of an optional text.
pub fn copy_option(o: &Option<String>) -> (r: Option<String>)
    ensures
        r == *o,
{
    match o {
        Some(s) => Some(s.clone()),
        None => None,
    }
}

/// A copy of a list of texts.
pub fn copy_list(v: &Vec<String>) -> (r: Vec<String>)
    ensures
        r@ == v@,
{
    let mut out: Vec<String> = Vec::new();
    let mut i: usize = 0;
    while i < v.len()
        invariant
            i <= v.len(),
            out@ == v@.take(i as int),
        decreases v.len() - i,
    {
        out.push(v[i].clone());
        i += 1;
    }
    assert(v@.take(i as int) =~= v@);
    out
}

/// Whether a text stands in a list.
pub fn list_has(parts: &Vec<String>, wanted: &str) -> (r: bool)
    ensures
        r == texts(parts@).contains(wanted@),
{
    let mut i: usize = 0;
    while i < parts.len()
        invariant
            i <= parts.len(),
            forall|j: int| 0 <= j < i ==> (#[trigger] texts(parts@)[j]) != wanted@,
        decreases parts.len() - i,
    {
        if same(parts[i].as_str(), wanted) {
            assert(texts(parts@)[i as int] == wanted@);
            return true;
        }
        i += 1;
    }
    false
}

/// The number of bytes a text takes in UTF-8.
pub fn byte_len(s: &str) -> (n: usize)
    ensures
        n == encode_utf8(s@).len(),
{
    s.as_bytes().len()
}

pub proof fn find_from_bounds(s: Seq<char>, c: char, from: int)
    requires
        0 <= from <= s.len(),
    ensures
        from <= find_from(s, c, from) <= s.len(),
        find_from(s, c, from) < s.len() ==> s[find_from(s, c, from)] == c,
        forall|j: int| from <= j < find_from(s, c, from) ==> s[j] != c,
        find_from(s, c, from) == s.len() ==> forall|j: int| from <= j < s.len() ==> s[j] != c,
    decreases s.len() - from,
{
    if from < s.len() && s[from] != c {
        find_from_bounds(s, c, from + 1);
    }
}

/// Searching a text that goes on finds what stands in its front, or goes on.
pub proof fn find_in_front(a: Seq<char>, b: Seq<char>, c: char, from: int)
    requires
        0 <= from <= a.len(),
    ensures
        find_from(a, c, from) < a.len() ==> find_from(a + b, c, from) == find_from(a, c, from),
        find_from(a, c, from) >= a.len() ==> find_from(a + b, c, from) == find_from(
            a + b,
            c,
            a.len() as int,
        ),
    decreases a.len() - from,
{
    if from < a.len() && a[from] != c {
        assert((a + b)[from] == a[from]);
        find_in_front(a, b, c, from + 1);
    }
}

/// The pieces of two texts with a separator between them are the pieces of both.
pub proof fn pieces_of_both(a: Seq<char>, b: Seq<char>, c: char)
    ensures
        pieces(a + seq![c] + b, c) == pieces(a, c) + pieces(b, c),
    decreases a.len(),
{
    let t = a + seq![c] + b;
    let tail = seq![c] + b;
    assert(t =~= a + tail);
    find_from_bounds(a, c, 0);
    find_in_front(a, tail, c, 0);
    let i = find_from(a, c, 0);
    if i < a.len() {
        let rest = a.skip(i + 1);
        pieces_of_both(rest, b, c);
        assert(t.take(i) =~= a.take(i));
        assert(t.skip(i + 1) =~= rest + seq![c] + b);
        assert(seq![a.take(i)] + (pieces(rest, c) + pieces(b, c)) =~= (seq![a.take(i)] + pieces(
            rest,
            c,
        )) + pieces(b, c));
    } else {
        assert(t[a.len() as int] == c);
        assert(find_from(t, c, a.len() as int) == a.len());
        assert(t.take(a.len() as int) =~= a);
        assert(t.skip(a.len() as int + 1) =~= b);
    }
}

/// No piece holds the separator.
pub proof fn pieces_hold_no_separator(s: Seq<char>, c: char)
    ensures
        pieces(s, c).len() > 0,
        forall|i: int| 0 <= i < pieces(s, c).len() ==> !(#[trigger] pieces(s, c)[i]).contains(c),
    decreases s.len(),
{
    find_from_bounds(s, c, 0);
    let i = find_from(s, c, 0);
    if i < s.len() {
        pieces_hold_no_separator(s.skip(i + 1), c);
        assert(!s.take(i).contains(c));
        let all = pieces(s, c);
        assert forall|k: int| 0 <= k < all.len() implies !(#[trigger] all[k]).contains(c) by {
            if k > 0 {
                assert(all[k] == pieces(s.skip(i + 1), c)[k - 1]);
            }
        }
    } else {
        assert(!s.contains(c));
    }
}

/// The first position at or after `from` that holds `c`, or the length.
pub fn find_char(s: &Vec<char>, c: char, from: usize) -> (r: usize)
    requires
        from <= s.len(),
    ensures
        r == find_from(s@, c, from as int),
        from <= r <= s.len(),
{
    let mut i: usize = from;
    while i < s.len() && s[i] != c
        invariant
            from <= i <= s.len(),
            find_from(s@, c, from as int) == find_from(s@, c, i as int),
        decreases s.len() - i,
    {
        i += 1;
    }
    i
}

/// Whether a text holds the character.
pub fn has_char(s: &str, c: char) -> (r: bool)
    ensures
        r == s@.contains(c),
{
    let v = chars_of(s);
    let i: usize = find_char(&v, c, 0);
    proof {
        find_from_bounds(v@, c, 0);
        if i < v.len() {
            assert(s@[i as int] == c);
        }
    }
    i < v.len()
}

/// What stands before and after the first `c`, if there is one.
pub fn split_once(s: &str, c: char) -> (r: Option<(&str, &str)>)
    ensures
        match r {
            Some((a, b)) => split_once_at(s@, c) == Some((a@, b@)),
            None => split_once_at(s@, c) is None,
        },
{
    let v = chars_of(s);
    let i: usize = find_char(&v, c, 0);
    if i < v.len() {
        let a = s.substring_char(0, i);
        let b = s.substring_char(i + 1, v.len());
        assert(a@ =~= s@.take(i as int));
        assert(b@ =~= s@.skip(i + 1));
        Some((a, b))
    } else {
        None
    }
}

/// The pieces of a text between the occurrences of `c`.
pub fn split(s: &str, c: char) -> (r: Vec<String>)
    ensures
        texts(r@) == pieces(s@, c),
{
    let v = chars_of(s);
    let mut out: Vec<String> = Vec::new();
    let mut start: usize = 0;
    assert(s@.skip(0) =~= s@);
    assert(texts(out@) + pieces(s@, c) =~= pieces(s@, c));
    loop
        invariant
            start <= v.len(),
            v@ == s@,
            texts(out@) + pieces(s@.skip(start as int), c) == pieces(s@, c),
        decreases v.len() - start,
    {
        let i: usize = find_char(&v, c, start);
        proof {
            find_from_skip(s@, c, start as int);
        }
        let ghost rest = s@.skip(start as int);
        let piece = s.substring_char(start, i).to_owned();
        let ghost before = texts(out@);
        if i < v.len() {
            out.push(piece);
            proof {
                assert(rest.take(i - start) =~= piece@);
                assert(rest.skip(i - start + 1) =~= s@.skip(i + 1));
                assert(texts(out@) =~= before.push(piece@));
                assert(before + (seq![piece@] + pieces(s@.skip(i + 1), c)) =~= texts(out@)
                    + pieces(s@.skip(i + 1), c));
            }
            start = i + 1;
        } else {
            out.push(piece);
            proof {
                assert(rest =~= piece@);
                assert(texts(out@) =~= before + seq![piece@]);
            }
            return out;
        }
    }
}

pub proof fn find_from_skip(s: Seq<char>, c: char, start: int)
    requires
        0 <= start <= s.len(),
    ensures
        find_from(s.skip(start), c, 0) == find_from(s, c, start) - start,
{
    find_from_shift(s, c, start, 0);
}

proof fn find_from_shift(s: Seq<char>, c: char, start: int, k: int)
    requires
        0 <= start <= s.len(),
        0 <= k <= s.len() - start,
    ensures
        find_from(s.skip(start), c, k) == find_from(s, c, start + k) - start,
    decreases s.len() - start - k,
{
    if start + k < s.len() {
        assert(s.skip(start)[k] == s[start + k]);
        if s[start + k] != c {
            find_from_shift(s, c, start, k + 1);
        }
    }
}

/// Whether a text begins with another.
pub fn starts_with(s: &str, prefix: &str) -> (r: bool)
    ensures
        r == prefix@.is_prefix_of(s@),
{
    let n: usize = prefix.unicode_len();
    if s.unicode_len() < n {
        return false;
    }
    let head = s.substring_char(0, n);
    same(head, prefix)
}

/// What follows a prefix, if the text begins with it.
pub fn strip_prefix<'a>(s: &'a str, prefix: &str) -> (r: Option<&'a str>)
    ensures
        match r {
            Some(rest) => prefix@.is_prefix_of(s@) && rest@ == s@.skip(prefix@.len() as int),
            None => !prefix@.is_prefix_of(s@),
        },
{
    if !starts_with(s, prefix) {
        return None;
    }
    let rest = s.substring_char(prefix.unicode_len(), s.unicode_len());
    assert(rest@ =~= s@.skip(prefix@.len() as int));
    Some(rest)
}

/// What precedes a suffix, if the text ends with it.
pub fn strip_suffix<'a>(s: &'a str, suffix: &str) -> (r: Option<&'a str>)
    ensures
        match r {
            Some(rest) => suffix@.is_suffix_of(s@) && rest@ == s@.take(s@.len() - suffix@.len()),
            None => !suffix@.is_suffix_of(s@),
        },
{
    let n: usize = s.unicode_len();
    let k: usize = suffix.unicode_len();
    if n < k {
        return None;
    }
    let tail = s.substring_char(n - k, n);
    if same(tail, suffix) {
        let rest = s.substring_char(0, n - k);
        assert(rest@ =~= s@.take(s@.len() - suffix@.len()));
        Some(rest)
    } else {
        None
    }
}

/// The first position of `needle` in a text.
pub fn find_text(s: &str, needle: &str) -> (r: Option<usize>)
    ensures
        match r {
            Some(at) => stands_at(s@, needle@, at as int) && forall|j: int|
                0 <= j < at ==> !stands_at(s@, needle@, j),
            None => !has_text(s@, needle@),
        },
{
    let n: usize = s.unicode_len();
    let k: usize = needle.unicode_len();
    if n < k {
        return None;
    }
    let mut at: usize = 0;
    while at <= n - k
        invariant
            n == s@.len(),
            k == needle@.len(),
            k <= n,
            at <= n - k + 1,
            forall|j: int| 0 <= j < at ==> !stands_at(s@, needle@, j),
        decreases n - k + 1 - at,
    {
        if same(s.substring_char(at, at + k), needle) {
            return Some(at);
        }
        if at == n - k {
            return None;
        }
        at += 1;
    }
    None
}

/// Whether `needle` stands anywhere in a text.
pub fn contains(s: &str, needle: &str) -> (r: bool)
    ensures
        r == has_text(s@, needle@),
{
    find_text(s, needle).is_some()
}

pub fn white(c: char) -> (r: bool)
    ensures
        r == is_white(c),
{
    let n: u32 = c as u32;
    (0x9 <= n && n <= 0xd) || n == 0x20 || n == 0x85 || n == 0xa0 || n == 0x1680 || (0x2000 <= n
        && n <= 0x200a) || n == 0x2028 || n == 0x2029 || n == 0x202f || n == 0x205f || n == 0x3000
}

/// Whether a text holds white space.
pub fn has_white(s: &str) -> (r: bool)
    ensures
        r == exists|i: int| 0 <= i < s@.len() && is_white(#[trigger] s@[i]),
{
    let v = chars_of(s);
    let mut i: usize = 0;
    while i < v.len()
        invariant
            i <= v.len(),
            v@ == s@,
            forall|j: int| 0 <= j < i ==> !is_white(#[trigger] s@[j]),
        decreases v.len() - i,
    {
        if white(v[i]) {
            return true;
        }
        i += 1;
    }
    false
}

/// A text without the white space around it.
pub fn trim(s: &str) -> (r: &str)
    ensures
        r@ == trimmed(s@),
{
    let v = chars_of(s);
    let mut start: usize = 0;
    assert(s@.skip(0) =~= s@);
    while start < v.len() && white(v[start])
        invariant
            start <= v.len(),
            v@ == s@,
            trimmed_front(s@.skip(start as int)) == trimmed_front(s@),
        decreases v.len() - start,
    {
        assert(s@.skip(start as int).skip(1) =~= s@.skip(start + 1));
        start += 1;
    }
    let ghost front = s@.skip(start as int);
    assert(front == trimmed_front(s@));
    let mut end: usize = v.len();
    assert(front.take(end - start) =~= front);
    while start < end && white(v[end - 1])
        invariant
            start <= end <= v.len(),
            v@ == s@,
            front == s@.skip(start as int),
            trimmed_back(front.take(end - start)) == trimmed_back(front),
        decreases end - start,
    {
        let ghost cut = front.take(end - start);
        assert(cut.drop_last() =~= front.take(end - start - 1));
        assert(cut.last() == s@[end - 1]);
        end -= 1;
    }
    proof {
        let cut = front.take(end - start);
        if cut.len() > 0 {
            assert(cut.last() == s@[end - 1]);
        }
    }
    let r = s.substring_char(start, end);
    assert(r@ =~= front.take(end - start));
    r
}

pub(crate) proof fn digits_value_bounds(s: Seq<char>)
    requires
        forall|i: int| 0 <= i < s.len() ==> is_digit(#[trigger] s[i]),
    ensures
        digits_value(s) >= 0,
    decreases s.len(),
{
    if s.len() > 0 {
        digits_value_bounds(s.drop_last());
        assert(is_digit(s.last()));
    }
}

proof fn digits_value_grows(s: Seq<char>, k: int)
    requires
        forall|i: int| 0 <= i < s.len() ==> is_digit(#[trigger] s[i]),
        0 <= k <= s.len(),
    ensures
        digits_value(s.take(k)) <= digits_value(s),
    decreases s.len() - k,
{
    if k < s.len() {
        digits_value_grows(s, k + 1);
        let t = s.take(k + 1);
        assert(t.drop_last() =~= s.take(k));
        digits_value_bounds(s.take(k));
        assert(is_digit(t.last()));
    } else {
        assert(s.take(k) =~= s);
    }
}

/// Reads a run of decimal digits whose value is at most `limit`.
fn bounded_digits(v: &Vec<char>, from: usize, limit: u64) -> (r: Option<u64>)
    requires
        from <= v.len(),
    ensures
        match r {
            Some(n) => all_digits(v@.skip(from as int)) && n == digits_value(v@.skip(from as int))
                && n <= limit,
            None => !all_digits(v@.skip(from as int)) || digits_value(v@.skip(from as int))
                > limit,
        },
{
    let ghost body = v@.skip(from as int);
    if from == v.len() {
        return None;
    }
    let mut value: u64 = 0;
    let mut i: usize = from;
    while i < v.len()
        invariant
            from <= i <= v.len(),
            from < v.len(),
            body == v@.skip(from as int),
            forall|j: int| 0 <= j < i - from ==> is_digit(#[trigger] body[j]),
            value == digits_value(body.take(i - from)),
            value <= limit,
        decreases v.len() - i,
    {
        let c: char = v[i];
        assert(body[i - from] == c);
        if !('0' <= c && c <= '9') {
            return None;
        }
        proof {
            let t = body.take(i - from + 1);
            assert(t.drop_last() =~= body.take(i - from));
            assert(t.last() == c);
        }
        let d: u64 = (c as u32 - '0' as u32) as u64;
        let wide: u128 = value as u128 * 10 + d as u128;
        if wide > limit as u128 {
            proof {
                if all_digits(body) {
                    digits_value_grows(body, i - from + 1);
                }
            }
            return None;
        }
        value = wide as u64;
        i += 1;
    }
    assert(body.take(i - from) =~= body);
    Some(value)
}

/// Reads an unsigned decimal number that is at most `limit`.
pub fn parse_unsigned(s: &str, limit: u64) -> (r: Option<u64>)
    ensures
        match r {
            Some(n) => unsigned_value(s@) == Some(n as int) && n <= limit,
            None => unsigned_value(s@) is None || unsigned_value(s@)->0 > limit,
        },
{
    let v = chars_of(s);
    let from: usize = if v.len() > 0 && v[0] == '+' {
        1
    } else {
        0
    };
    assert(v@.skip(0) =~= v@);
    bounded_digits(&v, from, limit)
}

/// Reads a TCP port number.
pub fn parse_port(s: &str) -> (r: Option<u16>)
    ensures
        match r {
            Some(n) => unsigned_value(s@) == Some(n as int),
            None => unsigned_value(s@) is None || unsigned_value(s@)->0 > u16::MAX,
        },
{
    match parse_unsigned(s, 65535) {
        Some(n) => Some(n as u16),
        None => None,
    }
}

/// Whether a text is a decimal number that fits in 64 signed bits.
pub fn is_signed_number(s: &str) -> (r: bool)
    ensures
        r == (signed_value(s@) is Some && i64::MIN <= signed_value(s@)->0 <= i64::MAX),
{
    let v = chars_of(s);
    if v.len() > 0 && v[0] == '-' {
        let r = bounded_digits(&v, 1, 0x8000_0000_0000_0000u64);
        r.is_some()
    } else {
        proof {
            if unsigned_value(s@) is Some {
                let body = if s@.len() > 0 && s@[0] == '+' {
                    s@.skip(1)
                } else {
                    s@
                };
                digits_value_bounds(body);
            }
        }
        parse_unsigned(s, 0x7fff_ffff_ffff_ffffu64).is_some()
    }
}

/// Trimming the front of a text makes it shorter where it begins white.
pub proof fn trimmed_front_shrinks(s: Seq<char>)
    ensures
        trimmed_front(s).len() <= s.len(),
        s.len() > 0 && is_white(s[0]) ==> trimmed_front(s).len() < s.len(),
    decreases s.len(),
{
    if s.len() > 0 && is_white(s[0]) {
        trimmed_front_shrinks(s.skip(1));
    }
}

/// Trimming the end of a text never makes it longer.
pub proof fn trimmed_back_shrinks(s: Seq<char>)
    ensures
        trimmed_back(s).len() <= s.len(),
    decreases s.len(),
{
    if s.len() > 0 && is_white(s.last()) {
        trimmed_back_shrinks(s.drop_last());
    }
}

// ---------------------------------------------------------------- quoting

/// A text in double quotes, with the escapes of Rust's `Debug` form.
pub uninterp spec fn quoted(s: Seq<char>) -> Seq<char>;

/// `format!` with `{:?}` on a string slice: the quoted form of its argument.
#[verifier::external_body]
pub(crate) fn quote(s: &str) -> (r: String)
    ensures
        r@ == quoted(s@),
{
    format!("{:?}", s)
}

// ---------------------------------------------------------------- complaints

/// What is said against bytes that are no text.
pub uninterp spec fn utf8_fault(bytes: Seq<u8>) -> Seq<char>;

/// `String::from_utf8`: the text whose bytes these are, and for bytes that are
/// not UTF-8 what its error says.
#[verifier::external_body]
pub(crate) fn text_from_bytes(bytes: Vec<u8>) -> (r: Result<String, String>)
    ensures
        match r {
            Ok(text) => valid_utf8(bytes@) && text@ == decode_utf8(bytes@),
            Err(said) => !valid_utf8(bytes@) && said@ == utf8_fault(bytes@),
        },
{
    match String::from_utf8(bytes) {
        Ok(text) => Ok(text),
        Err(error) => Err(error.to_string()),
    }
}

/// What is said against a text that is no port number.
pub uninterp spec fn port_fault(s: Seq<char>) -> Seq<char>;

/// `str::parse` for `u16`: what its error says against a text that is no port
/// number. Of a port number it says nothing.
#[verifier::external_body]
pub(crate) fn port_complaint(s: &str) -> (r: String)
    ensures
        r@ == port_fault(s@),
{
    match s.parse::<u16>() {
        Ok(_) => String::new(),
        Err(error) => error.to_string(),
    }
}

// ---------------------------------------------------------------- laws

/// A text that is split once is put together again from the two parts around the
/// separator, and the first part holds no separator. Only a text without one is
/// not split.
pub proof fn splits_are_at_the_first_separator(s: Seq<char>, c: char)
    ensures
        split_once_at(s, c) is None <==> !s.contains(c),
        split_once_at(s, c) matches Some((a, b)) ==> s == a + seq![c] + b && !a.contains(c),
{
    find_from_bounds(s, c, 0);
    let i = find_from(s, c, 0);
    if i < s.len() {
        assert(s.contains(s[i]));
        assert(s =~= s.take(i) + seq![c] + s.skip(i + 1));
        assert(!s.take(i).contains(c));
    }
}

proof fn joined_front(first: Seq<char>, rest: Seq<Seq<char>>, sep: Seq<char>)
    requires
        rest.len() > 0,
    ensures
        joined(seq![first] + rest, sep) == first + sep + joined(rest, sep),
    decreases rest.len(),
{
    let all = seq![first] + rest;
    assert(all.last() == rest.last());
    if rest.len() == 1 {
        assert(all.drop_last() =~= seq![first]);
        assert(joined(seq![first], sep) == first);
    } else {
        assert(all.drop_last() =~= seq![first] + rest.drop_last());
        joined_front(first, rest.drop_last(), sep);
        assert(first + sep + joined(rest.drop_last(), sep) + sep + rest.last() =~= first + sep + (
        joined(rest.drop_last(), sep) + sep + rest.last()));
    }
}

/// The pieces of a text, with the separator put between them again, are the text.
pub proof fn pieces_make_the_text(s: Seq<char>, c: char)
    ensures
        joined(pieces(s, c), seq![c]) == s,
    decreases s.len(),
{
    find_from_bounds(s, c, 0);
    let i = find_from(s, c, 0);
    if i < s.len() {
        let rest = s.skip(i + 1);
        pieces_make_the_text(rest, c);
        pieces_hold_no_separator(rest, c);
        joined_front(s.take(i), pieces(rest, c), seq![c]);
        assert(s =~= s.take(i) + seq![c] + rest);
    }
}

/// The blank and what ends or feeds lines and columns is white; letters, digits
/// and the marks that names, paths and options are made of are not.
pub proof fn blanks_are_white(c: char)
    ensures
        c == ' ' || c == '\t' || c == '\n' || c == '\r' ==> is_white(c),
        '!' <= c && c <= '~' ==> !is_white(c),
{
}

pub open spec fn all_white(s: Seq<char>) -> bool {
    forall|i: int| 0 <= i < s.len() ==> is_white(#[trigger] s[i])
}

proof fn front_is_white(s: Seq<char>) -> (front: Seq<char>)
    ensures
        all_white(front),
        s == front + trimmed_front(s),
        trimmed_front(s).len() > 0 ==> !is_white(trimmed_front(s)[0]),
    decreases s.len(),
{
    if s.len() > 0 && is_white(s[0]) {
        let rest = front_is_white(s.skip(1));
        let front = seq![s[0]] + rest;
        let left = trimmed_front(s);
        assert(s =~= seq![s[0]] + s.skip(1));
        assert(seq![s[0]] + (rest + left) =~= front + left);
        assert forall|i: int| 0 <= i < front.len() implies is_white(#[trigger] front[i]) by {
            if i > 0 {
                assert(front[i] == rest[i - 1]);
            }
        }
        front
    } else {
        assert(s =~= Seq::<char>::empty() + s);
        Seq::empty()
    }
}

proof fn back_is_white(s: Seq<char>) -> (back: Seq<char>)
    ensures
        all_white(back),
        s == trimmed_back(s) + back,
        trimmed_back(s).len() > 0 ==> !is_white(trimmed_back(s).last()),
        trimmed_back(s).len() > 0 ==> trimmed_back(s)[0] == s[0],
    decreases s.len(),
{
    if s.len() > 0 && is_white(s.last()) {
        let rest = back_is_white(s.drop_last());
        let back = rest.push(s.last());
        let left = trimmed_back(s);
        assert(s =~= s.drop_last().push(s.last()));
        assert((left + rest).push(s.last()) =~= left + back);
        assert forall|i: int| 0 <= i < back.len() implies is_white(#[trigger] back[i]) by {
            if i < rest.len() {
                assert(back[i] == rest[i]);
            }
        }
        back
    } else {
        assert(s =~= s + Seq::<char>::empty());
        Seq::empty()
    }
}

/// Trimming takes white space away in front and at the end, all of it there, and
/// nothing else.
pub proof fn trimming_takes_white_space_alone(s: Seq<char>) -> (around: (Seq<char>, Seq<char>))
    ensures
        all_white(around.0),
        all_white(around.1),
        s == around.0 + trimmed(s) + around.1,
        trimmed(s).len() > 0 ==> !is_white(trimmed(s)[0]) && !is_white(trimmed(s).last()),
{
    let front = front_is_white(s);
    let back = back_is_white(trimmed_front(s));
    assert(s =~= front + trimmed(s) + back);
    (front, back)
}

proof fn decimal_is_digits(n: nat)
    ensures
        all_digits(decimal(n)),
        n >= 10 ==> decimal(n).len() > 1,
        n > 0 ==> decimal(n)[0] != '0',
    decreases n,
{
    if n >= 10 {
        decimal_is_digits(n / 10);
        let s = decimal(n);
        assert(s[0] == decimal(n / 10)[0]);
        assert forall|i: int| 0 <= i < s.len() implies is_digit(#[trigger] s[i]) by {
            if i < s.len() - 1 {
                assert(s[i] == decimal(n / 10)[i]);
            }
        }
    }
}

/// A number that is written down is read back, with or without a plus sign where
/// it is not negative; it is written without leading zeros.
pub proof fn numbers_are_read_back(n: int)
    ensures
        signed_value(signed_decimal(n)) == Some(n),
        n >= 0 ==> unsigned_value(signed_decimal(n)) == Some(n),
        n >= 0 ==> unsigned_value(seq!['+'] + signed_decimal(n)) == Some(n),
        n < 0 ==> unsigned_value(signed_decimal(n)) is None,
        n > 0 ==> signed_decimal(n)[0] != '0',
{
    if n < 0 {
        decimal_is_digits((-n) as nat);
        crate::rotating_log::decimal_has_its_value((-n) as nat);
        let s = signed_decimal(n);
        assert(s.skip(1) =~= decimal((-n) as nat));
        assert(!is_digit(s[0]));
    } else {
        decimal_is_digits(n as nat);
        crate::rotating_log::decimal_has_its_value(n as nat);
        let s = decimal(n as nat);
        assert(is_digit(s[0]));
        assert((seq!['+'] + s).skip(1) =~= s);
    }
}

/// What is read as a number without a sign is made of digits alone, behind a plus
/// sign at most; one more digit is worth ten times what stands before it.
pub proof fn digits_count_by_place(s: Seq<char>, d: int)
    requires
        all_digits(s),
        0 <= d < 10,
    ensures
        unsigned_value(s.push(digit_char(d))) == Some(10 * unsigned_value(s)->0 + d),
        unsigned_value(s) is Some,
        forall|c: char| !is_digit(c) ==> unsigned_value(#[trigger] s.push(c)) is None,
{
    let t = s.push(digit_char(d));
    assert(is_digit(s[0]));
    assert(t.drop_last() =~= s);
    assert forall|i: int| 0 <= i < t.len() implies is_digit(#[trigger] t[i]) by {
        if i < s.len() {
            assert(t[i] == s[i]);
        }
    }
    assert(t[0] == s[0]);
    assert forall|c: char| !is_digit(c) implies unsigned_value(#[trigger] s.push(c)) is None by {
        let u = s.push(c);
        assert(u[0] == s[0]);
        assert(!is_digit(u[s.len() as int]));
    }
}

/// The value of a run of digits in base eight.
pub open spec fn octal_value(s: Seq<char>) -> int
    decreases s.len(),
{
    if s.len() == 0 {
        0
    } else {
        octal_value(s.drop_last()) * 8 + (s.last() as int - '0' as int)
    }
}

/// A number that is written in base eight has its value there, in digits below
/// eight and without leading zeros.
pub proof fn octal_numbers_have_their_value(n: nat)
    ensures
        octal_value(octal(n)) == n,
        octal(n).len() > 0,
        forall|i: int| 0 <= i < octal(n).len() ==> '0' <= #[trigger] octal(n)[i] <= '7',
        n > 0 ==> octal(n)[0] != '0',
    decreases n,
{
    let s = octal(n);
    if n >= 8 {
        octal_numbers_have_their_value(n / 8);
        assert(s.drop_last() =~= octal(n / 8));
        assert(s.last() == digit_char((n % 8) as int));
        assert(s[0] == octal(n / 8)[0]);
        assert forall|i: int| 0 <= i < s.len() implies '0' <= #[trigger] s[i] <= '7' by {
            if i < s.len() - 1 {
                assert(s[i] == octal(n / 8)[i]);
            }
        }
    } else {
        assert(s.drop_last() =~= Seq::<char>::empty());
        assert(octal_value(s.drop_last()) == 0);
        assert(s.last() == digit_char(n as int));
    }
}

/// The value of a hexadecimal digit.
pub open spec fn hex_value(c: char) -> int {
    if '0' <= c && c <= '9' {
        c as int - '0' as int
    } else {
        c as int - 'a' as int + 10
    }
}

/// Every byte takes two digits, the higher one first.
pub proof fn bytes_take_two_digits(bytes: Seq<u8>)
    ensures
        hex(bytes).len() == 2 * bytes.len(),
        forall|i: int|
            0 <= i < bytes.len() ==> #[trigger] bytes[i] == 16 * hex_value(hex(bytes)[2 * i])
                + hex_value(hex(bytes)[2 * i + 1]),
    decreases bytes.len(),
{
    if bytes.len() > 0 {
        let front = bytes.drop_last();
        bytes_take_two_digits(front);
        let s = hex(bytes);
        assert forall|i: int| 0 <= i < bytes.len() implies #[trigger] bytes[i] == 16 * hex_value(
            s[2 * i],
        ) + hex_value(s[2 * i + 1]) by {
            if i < front.len() {
                assert(front[i] == bytes[i]);
                assert(s[2 * i] == hex(front)[2 * i]);
                assert(s[2 * i + 1] == hex(front)[2 * i + 1]);
            } else {
                let b = bytes.last() as int;
                assert(s[2 * i] == hex_char(b / 16));
                assert(s[2 * i + 1] == hex_char(b % 16));
            }
        }
    }
}

/// A text stands where it was put, and wherever it stands the rest is what stands
/// before it and behind it.
pub proof fn texts_stand_where_they_were_put(
    before: Seq<char>,
    needle: Seq<char>,
    behind: Seq<char>,
    s: Seq<char>,
    at: int,
)
    ensures
        stands_at(before + needle + behind, needle, before.len() as int),
        has_text(before + needle + behind, needle),
        stands_at(s, needle, at) ==> 0 <= at && at + needle.len() <= s.len() && s == s.take(at)
            + needle + s.skip(at + needle.len()),
{
    let t = before + needle + behind;
    assert(t.subrange(before.len() as int, (before.len() + needle.len()) as int) =~= needle);
    assert(stands_at(t, needle, before.len() as int));
    if stands_at(s, needle, at) {
        assert(s =~= s.take(at) + s.subrange(at, at + needle.len()) + s.skip(at + needle.len()));
    }
}

} // verus!
