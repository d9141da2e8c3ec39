//! Lines, words and columns of a text.

use crate::text::{
    chars_of, find_char, find_from, find_from_skip, join, joined, quote, quoted, same, stands_at,
    texts,
};
use vstd::prelude::*;

verus! {

// ---------------------------------------------------------------- lines

/// A line without the carriage return at its end.
pub open spec fn without_return(line: Seq<char>) -> Seq<char> {
    if line.len() > 0 && line.last() == '\r' {
        line.drop_last()
    } else {
        line
    }
}

/// The lines of a text. A line feed ends a line, alone or after a carriage
/// return; the last line needs none.
pub open spec fn lines(s: Seq<char>) -> Seq<Seq<char>>
    decreases s.len(),
{
    let i = find_from(s, '\n', 0);
    if s.len() == 0 {
        Seq::empty()
    } else if 0 <= i < s.len() {
        seq![without_return(s.take(i))] + lines(s.skip(i + 1))
    } else {
        seq![s]
    }
}

fn strip_return(line: &str) -> (r: &str)
    ensures
        r@ == without_return(line@),
{
    let n: usize = line.unicode_len();
    if n > 0 && line.get_char(n - 1) == '\r' {
        let r = line.substring_char(0, n - 1);
        assert(r@ =~= line@.drop_last());
        r
    } else {
        line
    }
}

/// The lines of a text.
pub fn lines_of(s: &str) -> (r: Vec<String>)
    ensures
        texts(r@) == lines(s@),
{
    let v = chars_of(s);
    let mut out: Vec<String> = Vec::new();
    let mut start: usize = 0;
    assert(s@.skip(0) =~= s@);
    assert(texts(out@) + lines(s@) =~= lines(s@));
    while start < v.len()
        invariant
            start <= v.len(),
            v@ == s@,
            texts(out@) + lines(s@.skip(start as int)) == lines(s@),
        decreases v.len() - start,
    {
        let ghost rest = s@.skip(start as int);
        let ghost before = texts(out@);
        let i: usize = find_char(&v, '\n', start);
        proof {
            find_from_skip(s@, '\n', start as int);
        }
        let raw = s.substring_char(start, i);
        if i < v.len() {
            assert(rest.take(i - start) =~= raw@);
            assert(rest.skip(i - start + 1) =~= s@.skip(i + 1));
            let line = strip_return(raw).to_owned();
            out.push(line);
            proof {
                assert(texts(out@) =~= before.push(line@));
                assert(before + (seq![line@] + lines(s@.skip(i + 1))) =~= texts(out@) + lines(
                    s@.skip(i + 1),
                ));
            }
            start = i + 1;
        } else {
            assert(rest =~= raw@);
            let line = raw.to_owned();
            out.push(line);
            proof {
                assert(texts(out@) =~= before + seq![line@]);
                assert(s@.skip(s@.len() as int) =~= Seq::<char>::empty());
                assert(texts(out@) + lines(Seq::<char>::empty()) =~= texts(out@));
            }
            start = v.len();
        }
    }
    assert(s@.skip(start as int) =~= Seq::<char>::empty());
    assert(texts(out@) + lines(Seq::<char>::empty()) =~= texts(out@));
    out
}

// ---------------------------------------------------------------- words

/// The first position at or after `from` whose character is white (or is not),
/// or the length.
pub open spec fn first_white(s: Seq<char>, from: int, wanted: bool) -> int
    decreases s.len() - from,
{
    if from >= s.len() {
        s.len() as int
    } else if crate::text::is_white(s[from]) == wanted {
        from
    } else {
        first_white(s, from + 1, wanted)
    }
}

/// The words of a text from a position on: what white space separates.
pub open spec fn words_from(s: Seq<char>, from: int) -> Seq<Seq<char>>
    decreases s.len() - from,
{
    let a = first_white(s, from, false);
    let b = first_white(s, a, true);
    if 0 <= from <= a < b <= s.len() {
        seq![s.subrange(a, b)] + words_from(s, b)
    } else {
        Seq::empty()
    }
}

/// The words of a text.
pub open spec fn words(s: Seq<char>) -> Seq<Seq<char>> {
    words_from(s, 0)
}

proof fn first_white_bounds(s: Seq<char>, from: int, wanted: bool)
    requires
        0 <= from <= s.len(),
    ensures
        from <= first_white(s, from, wanted) <= s.len(),
        first_white(s, from, wanted) < s.len() ==> crate::text::is_white(
            s[first_white(s, from, wanted)],
        ) == wanted,
        forall|j: int|
            from <= j < first_white(s, from, wanted) ==> crate::text::is_white(#[trigger] s[j])
                != wanted,
    decreases s.len() - from,
{
    if from < s.len() && crate::text::is_white(s[from]) != wanted {
        first_white_bounds(s, from + 1, wanted);
    }
}

fn find_white(v: &Vec<char>, from: usize, wanted: bool) -> (r: usize)
    requires
        from <= v.len(),
    ensures
        r == first_white(v@, from as int, wanted),
        from <= r <= v.len(),
{
    let mut i: usize = from;
    while i < v.len()
        invariant
            from <= i <= v.len(),
            first_white(v@, from as int, wanted) == first_white(v@, i as int, wanted),
        decreases v.len() - i,
    {
        if crate::text::white(v[i]) == wanted {
            return i;
        }
        i += 1;
    }
    i
}

/// The words of a text.
pub fn words_of(s: &str) -> (r: Vec<String>)
    ensures
        texts(r@) == words(s@),
{
    let v = chars_of(s);
    let mut out: Vec<String> = Vec::new();
    let mut at: usize = 0;
    assert(texts(out@) + words(s@) =~= words(s@));
    loop
        invariant
            at <= v.len(),
            v@ == s@,
            texts(out@) + words_from(s@, at as int) == words(s@),
        decreases v.len() - at,
    {
        let a: usize = find_white(&v, at, false);
        let b: usize = find_white(&v, a, true);
        proof {
            first_white_bounds(s@, at as int, false);
            first_white_bounds(s@, a as int, true);
        }
        if a >= b {
            assert(texts(out@) + Seq::<Seq<char>>::empty() =~= texts(out@));
            return out;
        }
        let ghost before = texts(out@);
        let word = s.substring_char(a, b).to_owned();
        out.push(word);
        proof {
            assert(texts(out@) =~= before.push(word@));
            assert(before + (seq![word@] + words_from(s@, b as int)) =~= texts(out@) + words_from(
                s@,
                b as int,
            ));
        }
        at = b;
    }
}

// ---------------------------------------------------------------- searching

/// The last position at or before `at` where `needle` stands, or -1.
pub open spec fn last_stand(s: Seq<char>, needle: Seq<char>, at: int) -> int
    decreases at + 1,
{
    if at < 0 {
        -1
    } else if stands_at(s, needle, at) {
        at
    } else {
        last_stand(s, needle, at - 1)
    }
}

/// The last position where `needle` stands in a text.
pub fn find_last(s: &str, needle: &str) -> (r: Option<usize>)
    ensures
        match r {
            Some(at) => at == last_stand(s@, needle@, s@.len() as int) && stands_at(
                s@,
                needle@,
                at as int,
            ),
            None => last_stand(s@, needle@, s@.len() as int) == -1,
        },
{
    let n: usize = s.unicode_len();
    let k: usize = needle.unicode_len();
    let mut at: usize = n;
    loop
        invariant
            at <= n == s@.len(),
            k == needle@.len(),
            last_stand(s@, needle@, n as int) == last_stand(s@, needle@, at as int),
        decreases at,
    {
        if k <= n - at && same(s.substring_char(at, at + k), needle) {
            return Some(at);
        }
        if at == 0 {
            assert(last_stand(s@, needle@, -1) == -1);
            return None;
        }
        at -= 1;
    }
}

/// A character with `A` to `Z` made small.
pub open spec fn lower(c: char) -> char {
    if 'A' <= c && c <= 'Z' {
        (c as u8 + 32) as u8 as char
    } else {
        c
    }
}

/// A text with `A` to `Z` made small.
pub open spec fn lowered(s: Seq<char>) -> Seq<char> {
    Seq::new(s.len(), |i: int| lower(s[i]))
}

fn small(c: char) -> (r: char)
    ensures
        r == lower(c),
{
    if 'A' <= c && c <= 'Z' {
        let small: u8 = c as u8 + 32;
        small as char
    } else {
        c
    }
}

/// Whether a text holds another one, whatever the case of the former's letters.
pub fn holds_lowered(s: &str, needle: &str) -> (r: bool)
    ensures
        r == crate::text::has_text(lowered(s@), needle@),
{
    let v = chars_of(s);
    let w = chars_of(needle);
    let ghost low = lowered(s@);
    if v.len() < w.len() {
        return false;
    }
    let mut at: usize = 0;
    while at <= v.len() - w.len()
        invariant
            v@ == s@,
            w@ == needle@,
            low == lowered(s@),
            w.len() <= v.len(),
            at <= v.len() - w.len() + 1,
            forall|j: int| 0 <= j < at ==> !stands_at(low, needle@, j),
        decreases v.len() - w.len() + 1 - at,
    {
        let mut k: usize = 0;
        while k < w.len() && small(v[at + k]) == w[k]
            invariant
                v@ == s@,
                w@ == needle@,
                low == lowered(s@),
                k <= w.len() <= v.len(),
                at <= v.len() - w.len(),
                forall|j: int| 0 <= j < k ==> low[at + j] == #[trigger] needle@[j],
            decreases w.len() - k,
        {
            k += 1;
        }
        if k == w.len() {
            assert(low.subrange(at as int, at + w.len()) =~= needle@);
            assert(stands_at(low, needle@, at as int));
            return true;
        }
        assert(!stands_at(low, needle@, at as int)) by {
            assert(low[at + k] != needle@[k as int]);
            if stands_at(low, needle@, at as int) {
                assert(low.subrange(at as int, at + needle@.len())[k as int] == low[at + k]);
            }
        }
        if at == v.len() - w.len() {
            return false;
        }
        at += 1;
    }
    false
}

// ---------------------------------------------------------------- columns

/// Blanks.
pub open spec fn blanks(n: int) -> Seq<char> {
    Seq::new(
        if n < 0 {
            0
        } else {
            n as nat
        },
        |i: int| ' ',
    )
}

/// A text filled up with blanks to a width.
pub open spec fn padded(s: Seq<char>, width: nat) -> Seq<char> {
    s + blanks(width - s.len())
}

/// A text filled up with blanks to a width; a longer one is left as it is.
pub fn pad(s: &str, width: usize) -> (r: String)
    ensures
        r@ == padded(s@, width as nat),
{
    let mut out = s.to_owned();
    let mut i: usize = s.unicode_len();
    assert(out@ =~= s@ + blanks(i - s@.len()));
    while i < width
        invariant
            s@.len() <= i,
            i <= width || i == s@.len(),
            out@ == s@ + blanks(i - s@.len()),
        decreases width - i,
    {
        let ghost before = out@;
        out.append(" ");
        proof {
            reveal_strlit(" ");
            assert(out@ =~= s@ + blanks(i + 1 - s@.len()));
        }
        i += 1;
    }
    assert(out@ =~= padded(s@, width as nat));
    out
}

// ---------------------------------------------------------------- lists

/// The quoted forms of texts.
pub open spec fn quoted_each(parts: Seq<Seq<char>>) -> Seq<Seq<char>> {
    Seq::new(parts.len(), |i: int| quoted(parts[i]))
}

/// A list of texts as Rust's `Debug` form shows it.
pub open spec fn quoted_list(parts: Seq<Seq<char>>) -> Seq<char> {
    "["@ + joined(quoted_each(parts), ", "@) + "]"@
}

/// A list of texts as Rust's `Debug` form shows it.
pub fn quote_list(parts: &Vec<String>) -> (r: String)
    ensures
        r@ == quoted_list(texts(parts@)),
{
    let mut all: Vec<String> = Vec::new();
    let mut i: usize = 0;
    while i < parts.len()
        invariant
            i <= parts.len(),
            all.len() == i,
            forall|j: int| 0 <= j < i ==> (#[trigger] all@[j])@ == quoted(parts@[j]@),
        decreases parts.len() - i,
    {
        all.push(quote(parts[i].as_str()));
        i += 1;
    }
    assert(texts(all@) =~= quoted_each(texts(parts@)));
    crate::text::cat3("[", join(&all, ", ").as_str(), "]")
}

// ---------------------------------------------------------------- laws

/// Text without a line feed is one line; a line feed ends a line, and takes one
/// carriage return before it along. What stands behind it is read like a text of
/// its own.
pub proof fn line_feeds_end_lines(line: Seq<char>, rest: Seq<char>)
    requires
        !line.contains('\n'),
    ensures
        line.len() > 0 ==> lines(line) == seq![line],
        lines(Seq::<char>::empty()).len() == 0,
        line.len() == 0 || line.last() != '\r' ==> lines(line + seq!['\n'] + rest) == seq![line]
            + lines(rest),
        lines(line + seq!['\r', '\n'] + rest) == seq![line] + lines(rest),
{
    crate::text::find_from_bounds(line, '\n', 0);
    let i = find_from(line, '\n', 0);
    if i < line.len() {
        assert(line.contains(line[i]));
    }
    assert(find_from(line, '\n', 0) == line.len());
    let tail = seq!['\n'] + rest;
    let t = line + seq!['\n'] + rest;
    assert(t =~= line + tail);
    crate::text::find_in_front(line, tail, '\n', 0);
    assert(t[line.len() as int] == '\n');
    assert(find_from(t, '\n', line.len() as int) == line.len());
    assert(t.take(line.len() as int) =~= line);
    assert(t.skip(line.len() as int + 1) =~= rest);
    let front = line.push('\r');
    crate::text::find_from_bounds(front, '\n', 0);
    let k = find_from(front, '\n', 0);
    if k < line.len() {
        assert(line.contains(line[k]));
    }
    assert(find_from(front, '\n', 0) == front.len());
    let u = line + seq!['\r', '\n'] + rest;
    assert(u =~= front + tail);
    crate::text::find_in_front(front, tail, '\n', 0);
    assert(u[front.len() as int] == '\n');
    assert(find_from(u, '\n', front.len() as int) == front.len());
    assert(u.take(front.len() as int) =~= front);
    assert(u.skip(front.len() as int + 1) =~= rest);
    assert(front.drop_last() =~= line);
}

proof fn first_white_behind(a: Seq<char>, s: Seq<char>, from: int, wanted: bool)
    requires
        0 <= from <= s.len(),
    ensures
        first_white(a + s, a.len() + from, wanted) == a.len() + first_white(s, from, wanted),
    decreases s.len() - from,
{
    if from < s.len() {
        assert((a + s)[a.len() + from] == s[from]);
        if crate::text::is_white(s[from]) != wanted {
            first_white_behind(a, s, from + 1, wanted);
        }
    }
}

proof fn words_behind(a: Seq<char>, s: Seq<char>, from: int)
    requires
        0 <= from <= s.len(),
    ensures
        words_from(a + s, a.len() + from) == words_from(s, from),
    decreases s.len() - from,
{
    first_white_bounds(s, from, false);
    first_white_behind(a, s, from, false);
    let i = first_white(s, from, false);
    first_white_bounds(s, i, true);
    first_white_behind(a, s, i, true);
    let j = first_white(s, i, true);
    if i < j {
        words_behind(a, s, j);
        assert((a + s).subrange(a.len() + i, a.len() + j) =~= s.subrange(i, j));
    }
}

proof fn first_white_in_word(word: Seq<char>, rest: Seq<char>, from: int)
    requires
        0 <= from <= word.len(),
        forall|i: int| 0 <= i < word.len() ==> !crate::text::is_white(#[trigger] word[i]),
        rest.len() > 0 ==> crate::text::is_white(rest[0]),
    ensures
        first_white(word + rest, from, true) == word.len(),
    decreases word.len() - from,
{
    if from < word.len() {
        assert((word + rest)[from] == word[from]);
        first_white_in_word(word, rest, from + 1);
    } else if rest.len() > 0 {
        assert((word + rest)[from] == rest[0]);
    }
}

proof fn white_in_front_is_skipped(c: char, rest: Seq<char>)
    requires
        crate::text::is_white(c),
    ensures
        words(seq![c] + rest) == words(rest),
{
    let t = seq![c] + rest;
    assert(t[0] == c);
    first_white_behind(seq![c], rest, 0, false);
    assert(first_white(t, 0, false) == first_white(t, 1, false));
    words_behind(seq![c], rest, 0);
    let a = first_white(t, 1, false);
    first_white_bounds(t, 1, false);
    let b = first_white(t, a, true);
    first_white_bounds(t, a, true);
    assert(words_from(t, 0) == words_from(t, 1));
}

/// A run of characters that are not white is a word; a white character ends it,
/// and white space makes no word. What stands behind it is read like a text of
/// its own.
pub proof fn white_space_ends_words(word: Seq<char>, c: char, rest: Seq<char>)
    requires
        word.len() > 0,
        forall|i: int| 0 <= i < word.len() ==> !crate::text::is_white(#[trigger] word[i]),
        crate::text::is_white(c),
    ensures
        words(Seq::<char>::empty()).len() == 0,
        words(word) == seq![word],
        words(seq![c] + rest) == words(rest),
        words(word + seq![c] + rest) == seq![word] + words(rest),
{
    let none = Seq::<char>::empty();
    assert(words(none) =~= Seq::<Seq<char>>::empty());
    assert(word + none =~= word);
    first_white_in_word(word, none, 0);
    assert(first_white(word, 0, false) == 0);
    assert(word.subrange(0, word.len() as int) =~= word);
    assert(words_from(word, word.len() as int) =~= Seq::<Seq<char>>::empty());
    assert(words(word) =~= seq![word]);
    white_in_front_is_skipped(c, rest);
    let tail = seq![c] + rest;
    let t = word + seq![c] + rest;
    assert(t =~= word + tail);
    assert(t[0] == word[0]);
    assert(first_white(t, 0, false) == 0);
    first_white_in_word(word, tail, 0);
    assert(t.subrange(0, word.len() as int) =~= word);
    words_behind(word, tail, 0);
}

/// The last place of a text is one where it stands, and it stands nowhere behind
/// it; no place is told only where there is none.
pub proof fn last_places_are_last(s: Seq<char>, needle: Seq<char>, at: int)
    requires
        at >= -1,
    ensures
        -1 <= last_stand(s, needle, at) <= at,
        last_stand(s, needle, at) >= 0 ==> stands_at(s, needle, last_stand(s, needle, at)),
        forall|j: int| last_stand(s, needle, at) < j <= at ==> !#[trigger] stands_at(s, needle, j),
    decreases at + 1,
{
    if at >= 0 && !stands_at(s, needle, at) {
        last_places_are_last(s, needle, at - 1);
    }
}

/// Capital letters become the small ones, and nothing else changes.
pub proof fn only_capitals_become_small(c: char)
    ensures
        lower(c) == c <==> !('A' <= c && c <= 'Z'),
        'A' <= c && c <= 'Z' ==> lower(c) as int - 'a' as int == c as int - 'A' as int,
        lower(lower(c)) == lower(c),
{
}

/// A text that is made small keeps its length, and every character is made small
/// by itself.
pub proof fn texts_become_small_one_by_one(a: Seq<char>, b: Seq<char>)
    ensures
        lowered(a).len() == a.len(),
        lowered(a + b) == lowered(a) + lowered(b),
        lowered(lowered(a)) == lowered(a),
        a.len() == 1 ==> lowered(a) == seq![lower(a[0])],
{
    assert(lowered(a + b) =~= lowered(a) + lowered(b));
    assert forall|i: int| 0 <= i < a.len() implies lowered(lowered(a))[i] == lowered(a)[i] by {
        only_capitals_become_small(a[i]);
    }
    assert(lowered(lowered(a)) =~= lowered(a));
    if a.len() == 1 {
        assert(lowered(a) =~= seq![lower(a[0])]);
    }
}

/// A column holds its text in front and blanks behind it; only a text that is
/// longer than the column makes it wider.
pub proof fn columns_hold_their_text(s: Seq<char>, width: nat)
    ensures
        padded(s, width).len() == if s.len() < width {
            width
        } else {
            s.len()
        },
        s.is_prefix_of(padded(s, width)),
        forall|i: int|
            s.len() <= i < padded(s, width).len() ==> #[trigger] padded(s, width)[i] == ' ',
{
    assert(padded(s, width).subrange(0, s.len() as int) =~= s);
}

/// A list is shown in brackets, each text quoted, with a comma between two.
pub proof fn lists_are_shown_in_brackets(parts: Seq<Seq<char>>, one_more: Seq<char>)
    ensures
        quoted_list(Seq::empty()) == "[]"@,
        quoted_list(seq![one_more]) == "["@ + quoted(one_more) + "]"@,
        parts.len() > 0 ==> quoted_list(parts.push(one_more)) == quoted_list(parts).drop_last()
            + ", "@ + quoted(one_more) + "]"@,
{
    reveal_strlit("[");
    reveal_strlit("]");
    reveal_strlit("[]");
    let none = Seq::<Seq<char>>::empty();
    assert(joined(quoted_each(none), ", "@) =~= Seq::<char>::empty());
    assert(quoted_list(none) =~= "[]"@);
    assert(quoted_each(seq![one_more]) =~= seq![quoted(one_more)]);
    if parts.len() > 0 {
        let all = quoted_each(parts.push(one_more));
        assert(all.drop_last() =~= quoted_each(parts));
        assert(all.last() == quoted(one_more));
        assert(quoted_list(parts).drop_last() =~= "["@ + joined(quoted_each(parts), ", "@));
        assert(quoted_list(parts.push(one_more)) =~= "["@ + joined(quoted_each(parts), ", "@)
            + ", "@ + quoted(one_more) + "]"@);
    }
}

} // verus!
