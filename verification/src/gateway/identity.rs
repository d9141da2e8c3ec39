//! Keys and tokens.

use crate::failure::{outcome, plain, under, unless, Chain, Failure};
use crate::text::{
    cat2, find_from, find_in_front, has_char, is_white, join, joined, list_has, same, texts, trim,
    trimmed, trimmed_back, trimmed_back_shrinks, trimmed_front, trimmed_front_shrinks,
};
use crate::text_parts::{first_white, lines, lines_of, without_return, words, words_of};
use vstd::prelude::*;

verus! {

// ---------------------------------------------------------------- public keys

/// Whether a text looks like a public key: a known kind, then a body.
pub open spec fn is_plausible(key: Seq<char>) -> bool {
    &&& words(key).len() >= 2
    &&& is_key_kind(words(key)[0])
}

pub open spec fn is_key_kind(kind: Seq<char>) -> bool {
    ||| kind == "ssh-ed25519"@
    ||| kind == "ssh-rsa"@
    ||| kind == "ecdsa-sha2-nistp256"@
    ||| kind == "ecdsa-sha2-nistp384"@
    ||| kind == "ecdsa-sha2-nistp521"@
}

pub fn is_plausible_public_key(key: &str) -> (r: bool)
    ensures
        r == is_plausible(key@),
{
    let all = words_of(key);
    assert(texts(all@).len() == all@.len());
    if all.len() < 2 {
        return false;
    }
    let kind = all[0].as_str();
    assert(texts(all@)[0] == kind@);
    same(kind, "ssh-ed25519") || same(kind, "ssh-rsa") || same(kind, "ecdsa-sha2-nistp256")
        || same(kind, "ecdsa-sha2-nistp384") || same(kind, "ecdsa-sha2-nistp521")
}

/// A text without the line feed at its end.
pub open spec fn one_line(value: Seq<char>) -> Seq<char> {
    if value.len() > 0 && value.last() == '\n' {
        value.drop_last()
    } else {
        value
    }
}

/// Why a text is no public key. The text itself is not repeated: it may come
/// from any file.
pub open spec fn key_fault(value: Seq<char>) -> Option<Chain> {
    let key = one_line(value);
    if key.contains('\n') || key.contains('\r') {
        Some(plain("SSH public key must be exactly one line"@))
    } else if trimmed(key) != key {
        Some(plain("SSH public key must not have leading or trailing whitespace"@))
    } else {
        unless(is_plausible(key), "input does not look like a supported SSH public key"@)
    }
}

/// The public key that a text holds.
pub fn validate_public_key_content(value: &str) -> (r: Result<String, Failure>)
    ensures
        outcome(r) == match key_fault(value@) {
            Some(chain) => Err::<Seq<char>, Chain>(chain),
            None => Ok(one_line(value@)),
        },
{
    let n: usize = value.unicode_len();
    let key = if n > 0 && value.get_char(n - 1) == '\n' {
        value.substring_char(0, n - 1)
    } else {
        value
    };
    assert(key@ =~= one_line(value@));
    if has_char(key, '\n') || has_char(key, '\r') {
        return Err(Failure::msg("SSH public key must be exactly one line"));
    }
    if !same(trim(key), key) {
        return Err(
            Failure::msg("SSH public key must not have leading or trailing whitespace"),
        );
    }
    if !is_plausible_public_key(key) {
        return Err(Failure::msg("input does not look like a supported SSH public key"));
    }
    Ok(key.to_owned())
}

// ---------------------------------------------------------------- authorized keys

/// A line that holds no key.
pub open spec fn is_blank(line: Seq<char>) -> bool {
    trimmed(line).len() == 0 || trimmed(line)[0] == '#'
}

/// The keys of lines, behind those in `found`.
pub open spec fn gathered(path: Seq<char>, all: Seq<Seq<char>>, found: Seq<Seq<char>>) -> Result<
    Seq<Seq<char>>,
    Chain,
>
    decreases all.len(),
{
    if all.len() == 0 {
        Ok(found)
    } else if is_blank(all[0]) {
        gathered(path, all.skip(1), found)
    } else {
        match key_fault(trimmed(all[0])) {
            Some(chain) => Err(under("validate existing authorized key in "@ + path, chain)),
            None => gathered(path, all.skip(1), found.push(one_line(trimmed(all[0])))),
        }
    }
}

/// The file that holds keys, one on each line.
pub open spec fn key_file(keys: Seq<Seq<char>>) -> Seq<char> {
    joined(keys, "\n"@) + "\n"@
}

/// A file of authorized keys with one more key, and whether the key is new.
pub open spec fn authorized(path: Seq<char>, existing: Seq<char>, public_key: Seq<char>) -> Result<
    (Seq<char>, bool),
    Chain,
> {
    match key_fault(public_key) {
        Some(chain) => Err(chain),
        None => match gathered(path, lines(existing), Seq::empty()) {
            Err(chain) => Err(chain),
            Ok(keys) => {
                let key = one_line(public_key);
                if keys.contains(key) {
                    Ok((key_file(keys), false))
                } else {
                    Ok((key_file(keys.push(key)), true))
                }
            },
        },
    }
}

fn read_authorized_keys(path: &str, existing: &str) -> (r: Result<Vec<String>, Failure>)
    ensures
        match r {
            Ok(keys) => gathered(path@, lines(existing@), Seq::empty()) == Ok::<
                Seq<Seq<char>>,
                Chain,
            >(texts(keys@)),
            Err(failure) => gathered(path@, lines(existing@), Seq::empty()) == Err::<
                Seq<Seq<char>>,
                Chain,
            >(failure@),
        },
{
    let rows = lines_of(existing);
    let ghost all = texts(rows@);
    let mut keys: Vec<String> = Vec::new();
    let mut i: usize = 0;
    assert(all.skip(0) =~= all);
    assert(texts(keys@) =~= Seq::<Seq<char>>::empty());
    while i < rows.len()
        invariant
            i <= rows.len(),
            all == texts(rows@),
            all == lines(existing@),
            gathered(path@, all.skip(i as int), texts(keys@)) == gathered(
                path@,
                all,
                Seq::empty(),
            ),
        decreases rows.len() - i,
    {
        let ghost rest = all.skip(i as int);
        assert(rest.skip(1) =~= all.skip(i + 1));
        assert(rest[0] == rows@[i as int]@);
        let line = trim(rows[i].as_str());
        let blank = line.unicode_len() == 0 || line.get_char(0) == '#';
        if !blank {
            match validate_public_key_content(line) {
                Err(failure) => {
                    return Err(
                        failure.context(
                            cat2("validate existing authorized key in ", path).as_str(),
                        ),
                    );
                },
                Ok(key) => {
                    let ghost before = texts(keys@);
                    keys.push(key);
                    assert(texts(keys@) =~= before.push(key@));
                },
            }
        }
        i += 1;
    }
    assert(all.skip(i as int) =~= Seq::<Seq<char>>::empty());
    Ok(keys)
}

/// A file of authorized keys.
#[derive(Debug, Clone, PartialEq, Eq)]
pub struct AuthorizedKeys {
    pub content: String,
    pub added: bool,
}

impl View for AuthorizedKeys {
    type V = (Seq<char>, bool);

    open spec fn view(&self) -> (Seq<char>, bool) {
        (self.content@, self.added)
    }
}

/// Makes sure that a key is among the authorized ones. `existing` is what the
/// file holds; one that is missing holds nothing.
pub fn ensure_authorized_key(path: &str, existing: &str, public_key: &str) -> (r: Result<
    AuthorizedKeys,
    Failure,
>)
    ensures
        outcome(r) == authorized(path@, existing@, public_key@),
{
    let key = match validate_public_key_content(public_key) {
        Ok(key) => key,
        Err(failure) => return Err(failure),
    };
    let mut keys = match read_authorized_keys(path, existing) {
        Ok(keys) => keys,
        Err(failure) => return Err(failure),
    };
    let present = list_has(&keys, key.as_str());
    if !present {
        let ghost before = texts(keys@);
        keys.push(key);
        assert(texts(keys@) =~= before.push(key@));
    }
    Ok(AuthorizedKeys { content: cat2(join(&keys, "\n").as_str(), "\n"), added: !present })
}

// ---------------------------------------------------------------- keys are found again

/// Lines, each with its line feed.
spec fn terminated(keys: Seq<Seq<char>>) -> Seq<char>
    decreases keys.len(),
{
    if keys.len() == 0 {
        Seq::empty()
    } else {
        terminated(keys.drop_last()) + keys.last() + seq!['\n']
    }
}

spec fn is_stored_key(key: Seq<char>) -> bool {
    key_fault(key) is None && one_line(key) == key
}

proof fn key_file_is_terminated(keys: Seq<Seq<char>>)
    requires
        keys.len() > 0,
    ensures
        key_file(keys) == terminated(keys),
    decreases keys.len(),
{
    reveal_strlit("\n");
    assert("\n"@ =~= seq!['\n']);
    if keys.len() == 1 {
        assert(keys.drop_last() =~= Seq::<Seq<char>>::empty());
        assert(terminated(keys.drop_last()) =~= Seq::<char>::empty());
        assert(key_file(keys) =~= terminated(keys));
    } else {
        key_file_is_terminated(keys.drop_last());
        assert(key_file(keys) =~= key_file(keys.drop_last()) + keys.last() + seq!['\n']);
    }
}

/// One more line behind lines that are complete.
proof fn one_more_line(s: Seq<char>, line: Seq<char>)
    requires
        s.len() > 0 ==> s.last() == '\n',
        !line.contains('\n'),
        !line.contains('\r'),
    ensures
        lines(s + (line + seq!['\n'])) == lines(s).push(line),
    decreases s.len(),
{
    let end = line + seq!['\n'];
    let t = s + end;
    crate::text::find_from_bounds(s, '\n', 0);
    find_in_front(s, end, '\n', 0);
    if s.len() == 0 {
        assert(t =~= end);
        crate::text::find_from_bounds(line, '\n', 0);
        if find_from(line, '\n', 0) < line.len() {
            assert(line.contains(line[find_from(line, '\n', 0)]));
        }
        find_in_front(line, seq!['\n'], '\n', 0);
        assert(end[line.len() as int] == '\n');
        assert(find_from(end, '\n', line.len() as int) == line.len());
        assert(end.take(line.len() as int) =~= line);
        if line.len() > 0 {
            assert(line.contains(line.last()));
        }
        assert(end.skip(line.len() as int + 1) =~= Seq::<char>::empty());
        assert(lines(Seq::<char>::empty()) =~= Seq::<Seq<char>>::empty());
        assert(lines(end) =~= seq![line]);
        assert(lines(s) =~= Seq::<Seq<char>>::empty());
        assert(lines(s).push(line) =~= seq![line]);
    } else {
        let i = find_from(s, '\n', 0);
        assert(i < s.len()) by {
            if i == s.len() {
                assert(s[s.len() - 1] != '\n');
            }
        }
        let rest = s.skip(i + 1);
        if rest.len() > 0 {
            assert(rest.last() == s.last());
        }
        one_more_line(rest, line);
        assert(t.take(i) =~= s.take(i));
        assert(t.skip(i + 1) =~= rest + end);
        let first = without_return(s.take(i));
        assert(lines(t) == seq![first] + lines(rest + end));
        assert(lines(s) == seq![first] + lines(rest));
        assert(seq![first] + lines(rest).push(line) =~= (seq![first] + lines(rest)).push(line));
    }
}

proof fn stored_lines(keys: Seq<Seq<char>>)
    requires
        forall|i: int| 0 <= i < keys.len() ==> is_stored_key(#[trigger] keys[i]),
    ensures
        lines(terminated(keys)) == keys,
        terminated(keys).len() > 0 ==> terminated(keys).last() == '\n',
    decreases keys.len(),
{
    if keys.len() == 0 {
        assert(lines(Seq::<char>::empty()) =~= keys);
    } else {
        let front = keys.drop_last();
        assert forall|i: int| 0 <= i < front.len() implies is_stored_key(#[trigger] front[i]) by {
            assert(front[i] == keys[i]);
        }
        stored_lines(front);
        let last = keys.last();
        assert(is_stored_key(keys[keys.len() - 1]));
        one_more_line(terminated(front), last);
        assert(terminated(keys) =~= terminated(front) + (last + seq!['\n']));
        assert(front.push(last) =~= keys);
    }
}

proof fn kind_is_no_comment(kind: Seq<char>)
    requires
        is_key_kind(kind),
    ensures
        kind.len() > 0,
        kind[0] != '#',
{
    reveal_strlit("ssh-ed25519");
    reveal_strlit("ssh-rsa");
    reveal_strlit("ecdsa-sha2-nistp256");
    reveal_strlit("ecdsa-sha2-nistp384");
    reveal_strlit("ecdsa-sha2-nistp521");
}

/// A key that is stored is no blank line.
proof fn stored_key_is_read(key: Seq<char>)
    requires
        is_stored_key(key),
    ensures
        !is_blank(key),
        trimmed(key) == key,
{
    let a = first_white(key, 0, false);
    if key.len() > 0 && is_white(key[0]) {
        trimmed_front_shrinks(key);
        trimmed_back_shrinks(trimmed_front(key));
        assert(trimmed(key).len() < key.len());
    }
    assert(words(key).len() >= 2);
    if key.len() == 0 {
        assert(words(key) =~= Seq::<Seq<char>>::empty());
    }
    assert(a == 0);
    let b = first_white(key, a, true);
    assert(words(key)[0] == key.subrange(a, b));
    kind_is_no_comment(words(key)[0]);
    assert(words(key)[0][0] == key[0]);
}

proof fn stored_keys_are_gathered(path: Seq<char>, keys: Seq<Seq<char>>, found: Seq<Seq<char>>)
    requires
        forall|i: int| 0 <= i < keys.len() ==> is_stored_key(#[trigger] keys[i]),
    ensures
        gathered(path, keys, found) == Ok::<Seq<Seq<char>>, Chain>(found + keys),
    decreases keys.len(),
{
    if keys.len() == 0 {
        assert(found + keys =~= found);
    } else {
        assert(is_stored_key(keys[0]));
        stored_key_is_read(keys[0]);
        let rest = keys.skip(1);
        assert forall|i: int| 0 <= i < rest.len() implies is_stored_key(#[trigger] rest[i]) by {
            assert(rest[i] == keys[i + 1]);
        }
        stored_keys_are_gathered(path, rest, found.push(keys[0]));
        assert(found.push(keys[0]) + rest =~= found + keys);
    }
}

proof fn accepted_key_is_stored(value: Seq<char>)
    requires
        key_fault(value) is None,
    ensures
        is_stored_key(one_line(value)),
{
    let key = one_line(value);
    if key.len() > 0 && key.last() == '\n' {
        assert(key.contains(key.last()));
    }
    assert(one_line(key) == key);
}

proof fn gathered_keys_are_stored(path: Seq<char>, all: Seq<Seq<char>>, found: Seq<Seq<char>>)
    requires
        forall|i: int| 0 <= i < found.len() ==> is_stored_key(#[trigger] found[i]),
    ensures
        gathered(path, all, found) matches Ok(keys) ==> forall|i: int|
            0 <= i < keys.len() ==> is_stored_key(#[trigger] keys[i]),
    decreases all.len(),
{
    if all.len() > 0 {
        if is_blank(all[0]) {
            gathered_keys_are_stored(path, all.skip(1), found);
        } else if key_fault(trimmed(all[0])) is None {
            let key = one_line(trimmed(all[0]));
            accepted_key_is_stored(trimmed(all[0]));
            let more = found.push(key);
            assert forall|i: int| 0 <= i < more.len() implies is_stored_key(#[trigger] more[i]) by {
                if i < found.len() {
                    assert(more[i] == found[i]);
                }
            }
            gathered_keys_are_stored(path, all.skip(1), more);
        }
    }
}

/// A key that was added is found: adding it again changes nothing.
pub proof fn adding_a_key_twice_is_adding_it_once(
    path: Seq<char>,
    existing: Seq<char>,
    public_key: Seq<char>,
)
    ensures
        authorized(path, existing, public_key) matches Ok((content, _)) ==> authorized(
            path,
            content,
            public_key,
        ) == Ok::<(Seq<char>, bool), Chain>((content, false)),
{
    if authorized(path, existing, public_key) is Ok {
        let key = one_line(public_key);
        let before = gathered(path, lines(existing), Seq::empty())->Ok_0;
        let keys = if before.contains(key) {
            before
        } else {
            before.push(key)
        };
        gathered_keys_are_stored(path, lines(existing), Seq::empty());
        accepted_key_is_stored(public_key);
        assert forall|i: int| 0 <= i < keys.len() implies is_stored_key(#[trigger] keys[i]) by {
            if i < before.len() {
                assert(keys[i] == before[i]);
            }
        }
        assert(keys.contains(key)) by {
            if !before.contains(key) {
                assert(keys[before.len() as int] == key);
            }
        }
        assert(keys.len() > 0);
        key_file_is_terminated(keys);
        stored_lines(keys);
        stored_keys_are_gathered(path, keys, Seq::empty());
        assert(Seq::<Seq<char>>::empty() + keys =~= keys);
    }
}

/// A text is a public key exactly when it is one line, but for a line feed at its
/// end, that neither begins nor ends with white space, and holds one of the known
/// kinds with something behind it.
pub proof fn public_keys_are_of_known_kinds(value: Seq<char>)
    ensures
        key_fault(value) is None <==> {
            let key = if value.len() > 0 && value.last() == '\n' {
                value.drop_last()
            } else {
                value
            };
            &&& !key.contains('\n') && !key.contains('\r')
            &&& trimmed(key) == key
            &&& words(key).len() >= 2
            &&& seq![
                "ssh-ed25519"@,
                "ssh-rsa"@,
                "ecdsa-sha2-nistp256"@,
                "ecdsa-sha2-nistp384"@,
                "ecdsa-sha2-nistp521"@,
            ].contains(words(key)[0])
        },
{
    let kinds = seq![
        "ssh-ed25519"@,
        "ssh-rsa"@,
        "ecdsa-sha2-nistp256"@,
        "ecdsa-sha2-nistp384"@,
        "ecdsa-sha2-nistp521"@,
    ];
    let kind = words(one_line(value))[0];
    if is_key_kind(kind) {
        assert(kinds[0] == kind || kinds[1] == kind || kinds[2] == kind || kinds[3] == kind
            || kinds[4] == kind);
    }
}

/// Whether a key stands on a line of a file.
pub open spec fn has_key(file: Seq<char>, key: Seq<char>) -> bool {
    exists|i: int| 0 <= i < lines(file).len() && #[trigger] trimmed(lines(file)[i]) == key
}

/// A file that a key was added to holds that key. It holds every key that it held
/// before, and no other. The key is reported as new exactly where the file did
/// not hold it.
pub proof fn added_keys_are_held(path: Seq<char>, existing: Seq<char>, public_key: Seq<char>)
    ensures
        authorized(path, existing, public_key) matches Ok((content, added)) ==> {
            let key = one_line(public_key);
            &&& has_key(content, key)
            &&& added <==> !has_key(existing, key)
            &&& forall|line: Seq<char>|
                line.len() > 0 && line[0] != '#' && #[trigger] has_key(existing, line) ==> has_key(
                    content,
                    line,
                )
            &&& forall|line: Seq<char>| #[trigger]
                has_key(content, line) ==> line == key || has_key(existing, line)
        },
{
    if authorized(path, existing, public_key) is Ok {
        let (content, added) = authorized(path, existing, public_key)->Ok_0;
        let key = one_line(public_key);
        let all = lines(existing);
        let before = gathered(path, all, Seq::empty())->Ok_0;
        let keys = if before.contains(key) {
            before
        } else {
            before.push(key)
        };
        gathered_keys_are_stored(path, all, Seq::empty());
        gathered_keys_are_those_of_lines(path, all, Seq::empty());
        accepted_key_is_stored(public_key);
        assert forall|i: int| 0 <= i < keys.len() implies is_stored_key(#[trigger] keys[i]) by {
            if i < before.len() {
                assert(keys[i] == before[i]);
            }
        }
        stored_key_is_read(key);
        assert(keys.contains(key)) by {
            if !before.contains(key) {
                assert(keys[before.len() as int] == key);
            }
        }
        key_file_is_terminated(keys);
        stored_lines(keys);
        assert(lines(content) == keys);
        assert forall|line: Seq<char>| #[trigger] has_key(content, line) <==> keys.contains(line) by {
            if has_key(content, line) {
                let i = choose|i: int| 0 <= i < keys.len() && #[trigger] trimmed(keys[i]) == line;
                assert(is_stored_key(keys[i]));
                stored_key_is_read(keys[i]);
            }
            if keys.contains(line) {
                let i = choose|i: int| 0 <= i < keys.len() && keys[i] == line;
                assert(is_stored_key(keys[i]));
                stored_key_is_read(keys[i]);
                assert(trimmed(lines(content)[i]) == line);
            }
        }
        assert forall|line: Seq<char>| line.len() > 0 && line[0] != '#' implies (
        #[trigger] before.contains(line) <==> has_key(existing, line)) by {
            if has_key(existing, line) {
                let i = choose|i: int| 0 <= i < all.len() && #[trigger] trimmed(all[i]) == line;
                assert(!is_blank(all[i]));
                assert(before.contains(trimmed(all[i])));
            }
        }
        assert forall|line: Seq<char>| #[trigger] before.contains(line) implies keys.contains(line) by {
            let i = choose|i: int| 0 <= i < before.len() && before[i] == line;
            assert(keys[i] == line);
        }
        assert forall|line: Seq<char>| #[trigger] keys.contains(line) implies line == key
            || before.contains(line) by {
            let i = choose|i: int| 0 <= i < keys.len() && keys[i] == line;
            if i < before.len() {
                assert(before[i] == line);
            }
        }
    }
}

/// What is gathered is what stands on the lines that are not blank, behind what
/// was found before.
proof fn gathered_keys_are_those_of_lines(
    path: Seq<char>,
    all: Seq<Seq<char>>,
    found: Seq<Seq<char>>,
)
    ensures
        gathered(path, all, found) matches Ok(keys) ==> {
            &&& forall|i: int|
                0 <= i < all.len() && !is_blank(#[trigger] all[i]) ==> keys.contains(
                    trimmed(all[i]),
                )
            &&& forall|key: Seq<char>| #[trigger]
                found.contains(key) ==> keys.contains(key)
            &&& forall|key: Seq<char>| #[trigger]
                keys.contains(key) ==> found.contains(key) || exists|i: int|
                    0 <= i < all.len() && #[trigger] trimmed(all[i]) == key
        },
    decreases all.len(),
{
    if all.len() > 0 && gathered(path, all, found) is Ok {
        let rest = all.skip(1);
        let keys = gathered(path, all, found)->Ok_0;
        let more = if is_blank(all[0]) {
            found
        } else {
            found.push(one_line(trimmed(all[0])))
        };
        gathered_keys_are_those_of_lines(path, rest, more);
        if !is_blank(all[0]) {
            trimmed_lines_end_plainly(all[0]);
            assert(more[found.len() as int] == trimmed(all[0]));
            assert(more.contains(trimmed(all[0])));
        }
        assert forall|i: int| 0 <= i < all.len() && !is_blank(#[trigger] all[i]) implies keys.contains(
            trimmed(all[i]),
        ) by {
            if i > 0 {
                assert(rest[i - 1] == all[i]);
            }
        }
        assert forall|key: Seq<char>| #[trigger] found.contains(key) implies keys.contains(key) by {
            let i = choose|i: int| 0 <= i < found.len() && found[i] == key;
            assert(more[i] == key);
            assert(more.contains(key));
        }
        assert forall|key: Seq<char>| #[trigger] keys.contains(key) implies found.contains(key)
            || exists|i: int| 0 <= i < all.len() && #[trigger] trimmed(all[i]) == key by {
            if more.contains(key) {
                let i = choose|i: int| 0 <= i < more.len() && more[i] == key;
                if i < found.len() {
                    assert(found[i] == key);
                } else {
                    assert(trimmed(all[0]) == key);
                }
            } else {
                let i = choose|i: int| 0 <= i < rest.len() && #[trigger] trimmed(rest[i]) == key;
                assert(trimmed(all[i + 1]) == key);
            }
        }
    }
}

/// What is trimmed does not end in a line feed.
proof fn trimmed_lines_end_plainly(line: Seq<char>)
    ensures
        one_line(trimmed(line)) == trimmed(line),
{
    trimmed_back_ends_plainly(trimmed_front(line));
}

proof fn trimmed_back_ends_plainly(s: Seq<char>)
    ensures
        trimmed_back(s).len() > 0 ==> !is_white(trimmed_back(s).last()),
    decreases s.len(),
{
    if s.len() > 0 && is_white(s.last()) {
        trimmed_back_ends_plainly(s.drop_last());
    }
}

} // verus!
