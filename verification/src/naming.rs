//! Names: of files, as SQLite gives them and as they stand in OPFS, and of the
//! directory that holds them.

use crate::error::{error, text_outcome, ErrorView, VfsError, VfsErrorCode};
use crate::text::{characters, collect};
use vstd::prelude::*;
use vstd::utf8::encode_utf8;

verus! {

/// The longest name of a file, in bytes of UTF-8.
pub const MAX_NAME: usize = 120;

/// The longest name of a database, in bytes of UTF-8. What is left up to
/// [`MAX_NAME`] is room for the suffixes of its journals.
pub const MAX_DATABASE_NAME: usize = 100;

/// Whether a name is one of a flat namespace: it has between 1 and
/// [`MAX_NAME`] bytes, no NUL and no separator, and is no reference to a
/// directory.
pub open spec fn flat_name(name: Seq<char>) -> bool {
    &&& 0 < encode_utf8(name).len() <= MAX_NAME
    &&& !name.contains('\0')
    &&& !name.contains('/')
    &&& !name.contains('\\')
    &&& name != "."@
    &&& name != ".."@
}

/// The hexadecimal digit of a number below sixteen.
pub open spec fn hex_digit(value: int) -> char {
    seq!['0', '1', '2', '3', '4', '5', '6', '7', '8', '9', 'a', 'b', 'c', 'd', 'e', 'f'][value]
}

/// Two hexadecimal digits for each byte, the high one first.
pub open spec fn hex(bytes: Seq<u8>) -> Seq<char> {
    Seq::new(
        2 * bytes.len(),
        |i: int| hex_digit(if i % 2 == 0 { bytes[i / 2] / 16 } else { bytes[i / 2] % 16 } as int),
    )
}

/// The name that a file has in OPFS.
pub open spec fn encoded_name(name: Seq<char>) -> Seq<char> {
    "f-"@ + hex(encode_utf8(name))
}

/// The name in OPFS of a file that SQLite calls `name`, or the refusal of that
/// name.
pub open spec fn physical_name(name: Seq<char>) -> Result<Seq<char>, ErrorView> {
    if flat_name(name) {
        Ok(encoded_name(name))
    } else {
        Err(
            ErrorView {
                code: VfsErrorCode::CantOpen,
                message: "expected a flat filename of 1..120 UTF-8 bytes"@,
            },
        )
    }
}

/// The full name of a database that SQLite calls `name`, or its refusal.
pub open spec fn database_name(name: Seq<char>) -> Result<Seq<char>, ErrorView> {
    match physical_name(name) {
        Err(e) => Err(e),
        Ok(_) => if encode_utf8(name).len() > MAX_DATABASE_NAME {
            Err(
                ErrorView {
                    code: VfsErrorCode::CantOpen,
                    message: "database name exceeds 100 UTF-8 bytes"@,
                },
            )
        } else {
            Ok(name)
        },
    }
}

fn digit(value: u8) -> (c: char)
    requires
        value < 16,
    ensures
        c == hex_digit(value as int),
{
    if value == 0 {
        '0'
    } else if value == 1 {
        '1'
    } else if value == 2 {
        '2'
    } else if value == 3 {
        '3'
    } else if value == 4 {
        '4'
    } else if value == 5 {
        '5'
    } else if value == 6 {
        '6'
    } else if value == 7 {
        '7'
    } else if value == 8 {
        '8'
    } else if value == 9 {
        '9'
    } else if value == 10 {
        'a'
    } else if value == 11 {
        'b'
    } else if value == 12 {
        'c'
    } else if value == 13 {
        'd'
    } else if value == 14 {
        'e'
    } else {
        'f'
    }
}

/// Whether the characters at `from..to` make a normal name.
fn plain(chars: &Vec<char>, from: usize, to: usize) -> (r: bool)
    requires
        from <= to <= chars.len(),
    ensures
        r == plain_component(chars@.subrange(from as int, to as int)),
{
    let ghost part = chars@.subrange(from as int, to as int);
    proof {
        reveal_strlit(".");
        reveal_strlit("..");
    }
    if to - from == 1 && chars[from] == '.' {
        assert(part == "."@);
        return false;
    }
    if to - from == 2 && chars[from] == '.' && chars[from + 1] == '.' {
        assert(part == ".."@);
        return false;
    }
    assert(part != "."@) by {
        if part == "."@ {
            assert("."@.len() == 1 && "."@[0] == '.');
            assert(part[0] == chars@[from as int]);
        }
    }
    assert(part != ".."@) by {
        assert(".."@[0] == '.' && ".."@[1] == '.');
        assert(part.len() == 2 ==> part[0] == chars@[from as int] && part[1] == chars@[from + 1]);
    }
    let mut i: usize = from;
    while i < to
        invariant
            from <= i <= to <= chars.len(),
            part == chars@.subrange(from as int, to as int),
            part != "."@,
            part != ".."@,
            forall|j: int| 0 <= j < i - from ==> part[j] != '\0' && part[j] != '\\',
        decreases to - i,
    {
        assert(part[i - from] == chars@[i as int]);
        if chars[i] == '\0' || chars[i] == '\\' {
            return false;
        }
        i = i + 1;
    }
    true
}

/// Whether a part of a path is a normal name: it holds no NUL and no
/// backslash, and is neither `.` nor `..`.
pub open spec fn plain_component(part: Seq<char>) -> bool {
    &&& !part.contains('\0')
    &&& !part.contains('\\')
    &&& part != "."@
    &&& part != ".."@
}

/// The first place of a slash at or after `from`, or the end.
fn next_slash(chars: &Vec<char>, from: usize) -> (end: usize)
    requires
        from <= chars.len(),
    ensures
        from <= end <= chars.len(),
        end < chars.len() ==> chars@[end as int] == '/',
        forall|i: int| from <= i < end ==> chars@[i] != '/',
{
    let mut i: usize = from;
    while i < chars.len() && chars[i] != '/'
        invariant
            from <= i <= chars.len(),
            forall|j: int| from <= j < i ==> chars@[j] != '/',
        decreases chars.len() - i,
    {
        i = i + 1;
    }
    i
}

/// The name in OPFS of the file that SQLite calls `name`.
///
/// Names are case sensitive, and no two of them share a name in OPFS.
pub fn filename(name: &str) -> (r: Result<String, VfsError>)
    ensures
        text_outcome(r) == physical_name(name@),
{
    let bytes = name.as_bytes();
    let chars = characters(name);
    let end = next_slash(&chars, 0);
    assert(chars@.subrange(0, chars@.len() as int) == chars@);
    assert(end == chars.len() <==> !name@.contains('/'));
    if bytes.len() == 0 || bytes.len() > MAX_NAME || end < chars.len() || !plain(
        &chars,
        0,
        chars.len(),
    ) {
        return Err(
            error(VfsErrorCode::CantOpen, "expected a flat filename of 1..120 UTF-8 bytes"),
        );
    }
    let mut encoded = "f-".to_owned();
    let mut i: usize = 0;
    assert(hex(bytes@.take(0)) == Seq::<char>::empty());
    while i < bytes.len()
        invariant
            i <= bytes.len(),
            encoded@ == "f-"@ + hex(bytes@.take(i as int)),
        decreases bytes.len() - i,
    {
        let byte: u8 = bytes[i];
        encoded.push(digit(byte / 16));
        encoded.push(digit(byte % 16));
        i = i + 1;
        assert(hex(bytes@.take(i as int)) == hex(bytes@.take(i - 1)).push(
            hex_digit((byte / 16) as int),
        ).push(hex_digit((byte % 16) as int)));
    }
    assert(bytes@.take(bytes@.len() as int) == bytes@);
    Ok(encoded)
}

/// The full name of the database that SQLite calls `name`: the name itself.
pub fn full_pathname(name: &str) -> (r: Result<String, VfsError>)
    ensures
        text_outcome(r) == database_name(name@),
{
    match filename(name) {
        Err(e) => Err(e),
        Ok(_) => {
            if name.as_bytes().len() > MAX_DATABASE_NAME {
                Err(error(VfsErrorCode::CantOpen, "database name exceeds 100 UTF-8 bytes"))
            } else {
                Ok(name.to_owned())
            }
        },
    }
}

/// How many characters come before the first slash.
pub open spec fn first_slash(path: Seq<char>) -> nat
    decreases path.len(),
{
    if path.len() == 0 || path[0] == '/' {
        0
    } else {
        1 + first_slash(path.skip(1))
    }
}

/// The nonempty parts of a path between its slashes, in order.
pub open spec fn components(path: Seq<char>) -> Seq<Seq<char>>
    decreases path.len(),
{
    if path.len() == 0 {
        Seq::empty()
    } else {
        let end = first_slash(path) as int;
        if end >= path.len() {
            seq![path]
        } else if end == 0 {
            components(path.skip(1))
        } else {
            seq![path.take(end)] + components(path.skip(end + 1))
        }
    }
}

/// The parts with a slash between each two of them.
pub open spec fn joined(parts: Seq<Seq<char>>) -> Seq<char>
    decreases parts.len(),
{
    if parts.len() == 0 {
        Seq::empty()
    } else if parts.len() == 1 {
        parts[0]
    } else {
        joined(parts.drop_last()).push('/') + parts.last()
    }
}

/// The normal form of the path of a directory, or its refusal: the path must
/// have a component, and each of them must be a normal name.
pub open spec fn directory_path(path: Seq<char>) -> Result<Seq<char>, ErrorView> {
    let parts = components(path);
    if parts.len() > 0 && forall|i: int|
        0 <= i < parts.len() ==> plain_component(#[trigger] parts[i]) {
        Ok(joined(parts))
    } else {
        Err(ErrorView { code: VfsErrorCode::CantOpen, message: "invalid OPFS directory"@ })
    }
}

/// `first_slash` is where a slash stands with none before it, or the end.
proof fn lemma_first_slash(path: Seq<char>, end: int)
    requires
        0 <= end <= path.len(),
        end < path.len() ==> path[end] == '/',
        forall|i: int| 0 <= i < end ==> path[i] != '/',
    ensures
        first_slash(path) == end,
    decreases path.len(),
{
    if end > 0 {
        lemma_first_slash(path.skip(1), end - 1);
    }
}

proof fn lemma_joined_push(parts: Seq<Seq<char>>, part: Seq<char>)
    ensures
        joined(parts.push(part)) == (if parts.len() == 0 {
            part
        } else {
            joined(parts).push('/') + part
        }),
{
    assert(parts.push(part).drop_last() == parts);
}

/// The normal form of the path of a directory, relative to the root of OPFS.
///
/// Leading, trailing and repeated slashes are dropped.
pub fn directory(path: &str) -> (r: Result<String, VfsError>)
    ensures
        text_outcome(r) == directory_path(path@),
{
    let chars = characters(path);
    let ghost mut done: Seq<Seq<char>> = Seq::empty();
    let mut normal = String::new();
    let mut found = false;
    let mut from: usize = 0;
    assert(path@.skip(0) == path@);
    while from < chars.len()
        invariant
            from <= chars.len(),
            chars@ == path@,
            components(path@) == done + components(path@.skip(from as int)),
            found == (done.len() > 0),
            normal@ == joined(done),
            forall|i: int| 0 <= i < done.len() ==> plain_component(#[trigger] done[i]),
        decreases chars.len() - from,
    {
        let end = next_slash(&chars, from);
        let ghost tail = path@.skip(from as int);
        proof {
            lemma_first_slash(tail, end - from);
            assert(tail.take(end - from) == path@.subrange(from as int, end as int));
            if end < chars.len() {
                assert(tail.skip(end - from + 1) == path@.skip(end + 1));
            } else {
                assert(tail == path@.subrange(from as int, end as int));
                assert(components(path@.skip(end as int)) == Seq::<Seq<char>>::empty());
            }
        }
        if end > from {
            if !plain(&chars, from, end) {
                proof {
                    assert(components(path@)[done.len() as int] == path@.subrange(
                        from as int,
                        end as int,
                    ));
                }
                return Err(error(VfsErrorCode::CantOpen, "invalid OPFS directory"));
            }
            if found {
                normal.push('/');
            }
            let part = collect(&chars, from, end);
            normal.append(part.as_str());
            found = true;
            proof {
                lemma_joined_push(done, part@);
                done = done.push(part@);
            }
        }
        if end == chars.len() {
            from = end;
        } else {
            from = end + 1;
        }
        assert(components(path@) == done + components(path@.skip(from as int)));
    }
    if !found {
        return Err(error(VfsErrorCode::CantOpen, "invalid OPFS directory"));
    }
    assert(components(path@) == done);
    Ok(normal)
}

/// No two digits are the same character.
proof fn lemma_hex_digit_injective(a: int, b: int)
    requires
        0 <= a < 16,
        0 <= b < 16,
        hex_digit(a) == hex_digit(b),
    ensures
        a == b,
{
}

proof fn lemma_hex_injective(a: Seq<u8>, b: Seq<u8>)
    requires
        hex(a) == hex(b),
    ensures
        a == b,
{
    assert(hex(a).len() == 2 * a.len() && hex(b).len() == 2 * b.len());
    assert forall|i: int| 0 <= i < a.len() implies a[i] == b[i] by {
        let high = 2 * i;
        let low = 2 * i + 1;
        assert(high / 2 == i && high % 2 == 0 && low / 2 == i && low % 2 == 1);
        assert(hex(a)[high] == hex(b)[high]);
        assert(hex(a)[low] == hex(b)[low]);
        assert(hex(a)[high] == hex_digit((a[i] / 16) as int));
        assert(hex(a)[low] == hex_digit((a[i] % 16) as int));
        assert(hex(b)[high] == hex_digit((b[i] / 16) as int));
        assert(hex(b)[low] == hex_digit((b[i] % 16) as int));
        lemma_hex_digit_injective((a[i] / 16) as int, (b[i] / 16) as int);
        lemma_hex_digit_injective((a[i] % 16) as int, (b[i] % 16) as int);
    }
    assert(a =~= b);
}

/// Two names that have the same name in OPFS are the same name.
pub proof fn law_names_injective(a: Seq<char>, b: Seq<char>)
    requires
        physical_name(a) is Ok,
        physical_name(a) == physical_name(b),
    ensures
        a == b,
{
    let prefix = "f-"@.len() as int;
    assert((encoded_name(a)).skip(prefix) == hex(encode_utf8(a)));
    assert((encoded_name(b)).skip(prefix) == hex(encode_utf8(b)));
    lemma_hex_injective(encode_utf8(a), encode_utf8(b));
    vstd::utf8::encode_utf8_decode_utf8(a);
    vstd::utf8::encode_utf8_decode_utf8(b);
}

/// Whether a character is one that every file system takes in a name, and that
/// folding the case leaves alone.
pub open spec fn portable(c: char) -> bool {
    c == '-' || '0' <= c <= '9' || 'a' <= c <= 'f'
}

/// A name in OPFS is made of lower-case hexadecimal digits and a hyphen, two
/// characters for the prefix and two for each byte of the name: never more
/// than 242.
pub proof fn law_names_portable(name: Seq<char>)
    requires
        physical_name(name) is Ok,
    ensures
        physical_name(name)->Ok_0.len() == 2 + 2 * encode_utf8(name).len() <= 242,
        forall|i: int|
            0 <= i < physical_name(name)->Ok_0.len() ==> portable(
                #[trigger] physical_name(name)->Ok_0[i],
            ),
{
    reveal_strlit("f-");
    let encoded = encoded_name(name);
    assert forall|i: int| 0 <= i < encoded.len() implies portable(#[trigger] encoded[i]) by {
        if i < 2 {
            assert("f-"@[0] == 'f' && "f-"@[1] == '-');
        } else {
            assert(encoded[i] == hex(encode_utf8(name))[i - 2]);
        }
    }
}

/// The UTF-8 form of two texts one after the other is that of the first, then
/// that of the second.
proof fn lemma_encode_concat(a: Seq<char>, b: Seq<char>)
    ensures
        encode_utf8(a + b) == encode_utf8(a) + encode_utf8(b),
    decreases a.len(),
{
    if a.len() == 0 {
        assert(a + b == b);
    } else {
        assert((a + b).drop_first() == a.drop_first() + b);
        lemma_encode_concat(a.drop_first(), b);
    }
}

proof fn lemma_sidecar(name: Seq<char>, suffix: Seq<char>)
    requires
        database_name(name) is Ok,
        vstd::utf8::is_ascii_chars(suffix),
        2 < suffix.len() <= 20,
        !suffix.contains('\0'),
        !suffix.contains('/'),
        !suffix.contains('\\'),
    ensures
        flat_name(name + suffix),
{
    reveal_strlit(".");
    reveal_strlit("..");
    let long = name + suffix;
    lemma_encode_concat(name, suffix);
    vstd::utf8::is_ascii_chars_encode_utf8(suffix);
    assert forall|c: char| !name.contains(c) && !suffix.contains(c) implies !long.contains(c) by {
        if long.contains(c) {
            let i = choose|i: int| 0 <= i < long.len() && long[i] == c;
            if i < name.len() {
                assert(name[i] == c);
            } else {
                assert(suffix[i - name.len()] == c);
            }
        }
    }
}

/// A database whose name is accepted can have its rollback journal and its
/// write-ahead log beside it: their names are accepted too.
pub proof fn law_room_for_sidecars(name: Seq<char>)
    requires
        database_name(name) is Ok,
    ensures
        physical_name(name + "-journal"@) is Ok,
        physical_name(name + "-wal"@) is Ok,
{
    reveal_strlit("-journal");
    reveal_strlit("-wal");
    lemma_sidecar(name, "-journal"@);
    lemma_sidecar(name, "-wal"@);
}

proof fn lemma_first_slash_facts(path: Seq<char>)
    ensures
        first_slash(path) <= path.len(),
        first_slash(path) < path.len() ==> path[first_slash(path) as int] == '/',
        forall|i: int| 0 <= i < first_slash(path) ==> path[i] != '/',
    decreases path.len(),
{
    if path.len() > 0 && path[0] != '/' {
        lemma_first_slash_facts(path.skip(1));
        assert forall|i: int| 0 <= i < first_slash(path) implies path[i] != '/' by {
            if i > 0 {
                assert(path.skip(1)[i - 1] == path[i]);
            }
        }
    }
}

/// A slash separates: the components of a path with a slash in it are those
/// before it, then those after it. A slash at either end or beside another one
/// thus adds nothing.
pub proof fn law_slash_separates(a: Seq<char>, b: Seq<char>)
    ensures
        components(a.push('/') + b) == components(a) + components(b),
    decreases a.len(),
{
    let path = a.push('/') + b;
    lemma_first_slash_facts(a);
    let end = first_slash(a) as int;
    lemma_first_slash(path, end);
    if end >= a.len() {
        assert(path.skip(end + 1) == b);
        assert(path.take(end) == a);
        if a.len() == 0 {
            assert(path.skip(1) == b);
        }
    } else {
        let rest = a.skip(end + 1);
        law_slash_separates(rest, b);
        assert(path.skip(end + 1) == rest.push('/') + b);
        assert(path.take(end) == a.take(end));
    }
}

/// Components are not empty and hold no slash.
proof fn lemma_components_clean(path: Seq<char>)
    ensures
        forall|i: int|
            0 <= i < components(path).len() ==> (#[trigger] components(path)[i]).len() > 0
                && !components(path)[i].contains('/'),
    decreases path.len(),
{
    if path.len() > 0 {
        lemma_first_slash_facts(path);
        let end = first_slash(path) as int;
        if end < path.len() {
            lemma_components_clean(path.skip(end + 1));
            if end > 0 {
                let rest = components(path.skip(end + 1));
                assert forall|i: int| 0 <= i < components(path).len() implies (
                #[trigger] components(path)[i]).len() > 0 && !components(path)[i].contains('/') by {
                    if i > 0 {
                        assert(components(path)[i] == rest[i - 1]);
                    }
                }
            }
        }
    }
}

/// A nonempty text without a slash is one component.
proof fn lemma_one_component(part: Seq<char>)
    requires
        part.len() > 0,
        !part.contains('/'),
    ensures
        components(part) == seq![part],
{
    lemma_first_slash(part, part.len() as int);
}

proof fn lemma_components_joined(parts: Seq<Seq<char>>)
    requires
        forall|i: int|
            0 <= i < parts.len() ==> (#[trigger] parts[i]).len() > 0 && !parts[i].contains('/'),
    ensures
        components(joined(parts)) == parts,
    decreases parts.len(),
{
    if parts.len() == 1 {
        lemma_one_component(parts[0]);
        assert(seq![parts[0]] == parts);
    } else if parts.len() > 1 {
        lemma_components_joined(parts.drop_last());
        law_slash_separates(joined(parts.drop_last()), parts.last());
        lemma_one_component(parts.last());
        assert(parts.drop_last() + seq![parts.last()] == parts);
    } else {
        assert(components(joined(parts)) == parts);
    }
}

/// The normal form of a directory keeps its components, and is its own normal
/// form.
pub proof fn law_directory_normal(path: Seq<char>)
    requires
        directory_path(path) is Ok,
    ensures
        components(directory_path(path)->Ok_0) == components(path),
        directory_path(directory_path(path)->Ok_0) == directory_path(path),
{
    lemma_components_clean(path);
    lemma_components_joined(components(path));
}

/// A name is accepted exactly if it has from 1 to 120 bytes in UTF-8, neither a
/// NUL nor a separator among them, and is not `.` or `..`.
pub proof fn law_accepted_names(name: Seq<char>)
    ensures
        physical_name(name) is Ok <==> {
            &&& 1 <= encode_utf8(name).len() <= 120
            &&& forall|i: int|
                0 <= i < name.len() ==> #[trigger] name[i] != '\0' && name[i] != '/' && name[i]
                    != '\\'
            &&& name != "."@
            &&& name != ".."@
        },
        physical_name(name) matches Err(e) ==> e.code == VfsErrorCode::CantOpen && e.message
            == "expected a flat filename of 1..120 UTF-8 bytes"@,
{
}

/// The number that a hexadecimal digit stands for.
pub open spec fn digit_value(c: char) -> int {
    if '0' <= c <= '9' {
        c as int - '0' as int
    } else {
        c as int - 'a' as int + 10
    }
}

/// The bytes of a name can be read off its name in OPFS: after `f-`, each two
/// digits make the next byte.
pub proof fn law_names_readable(name: Seq<char>)
    requires
        physical_name(name) is Ok,
    ensures
        ({
            let physical = physical_name(name)->Ok_0;
            let bytes = encode_utf8(name);
            &&& physical.len() == 2 + 2 * bytes.len()
            &&& physical.take(2) == "f-"@
            &&& forall|i: int|
                0 <= i < bytes.len() ==> 16 * digit_value(physical[2 + 2 * i]) + digit_value(
                    physical[3 + 2 * i],
                ) == #[trigger] bytes[i]
        }),
{
    reveal_strlit("f-");
    let physical = physical_name(name)->Ok_0;
    let bytes = encode_utf8(name);
    assert("f-"@.len() == 2);
    assert(physical.take(2) =~= "f-"@);
    assert forall|i: int| 0 <= i < bytes.len() implies 16 * digit_value(physical[2 + 2 * i])
        + digit_value(physical[3 + 2 * i]) == #[trigger] bytes[i] by {
        let high = 2 * i;
        let low = 2 * i + 1;
        assert(high / 2 == i && high % 2 == 0 && low / 2 == i && low % 2 == 1);
        assert(physical[2 + 2 * i] == hex(bytes)[high]);
        assert(physical[3 + 2 * i] == hex(bytes)[low]);
        lemma_digit_value((bytes[i] / 16) as int);
        lemma_digit_value((bytes[i] % 16) as int);
    }
}

proof fn lemma_digit_value(value: int)
    requires
        0 <= value < 16,
    ensures
        digit_value(hex_digit(value)) == value,
{
}

/// A database goes by the name that SQLite gives it, which is accepted exactly
/// if a file can have it and it has at most 100 bytes.
pub proof fn law_database_names(name: Seq<char>)
    ensures
        database_name(name) is Ok <==> physical_name(name) is Ok && encode_utf8(name).len() <= 100,
        database_name(name) matches Ok(full) ==> full == name,
        physical_name(name) is Err ==> database_name(name) == physical_name(name),
        physical_name(name) is Ok && encode_utf8(name).len() > 100 ==> database_name(name) == Err::<
            Seq<char>,
            ErrorView,
        >(
            ErrorView {
                code: VfsErrorCode::CantOpen,
                message: "database name exceeds 100 UTF-8 bytes"@,
            },
        ),
{
}

/// A nonempty text without a slash is one component, and the empty text has
/// none. With [`law_slash_separates`] this gives the components of any path.
pub proof fn law_components(part: Seq<char>)
    requires
        !part.contains('/'),
    ensures
        components(part) == (if part.len() > 0 {
            seq![part]
        } else {
            Seq::empty()
        }),
{
    if part.len() > 0 {
        lemma_one_component(part);
    }
}

/// A directory is accepted exactly if its path has a component and each of them
/// is a normal name.
pub proof fn law_accepted_directories(path: Seq<char>)
    ensures
        directory_path(path) is Ok <==> {
            &&& components(path).len() > 0
            &&& forall|i: int, j: int|
                0 <= i < components(path).len() && 0 <= j < components(path)[i].len()
                    ==> #[trigger] components(path)[i][j] != '\0' && components(path)[i][j]
                    != '\\'
            &&& forall|i: int|
                0 <= i < components(path).len() ==> #[trigger] components(path)[i] != "."@
                    && components(path)[i] != ".."@
        },
        directory_path(path) matches Err(e) ==> e.code == VfsErrorCode::CantOpen && e.message
            == "invalid OPFS directory"@,
{
    let parts = components(path);
    if directory_path(path) is Ok {
        assert forall|i: int, j: int| 0 <= i < parts.len() && 0 <= j < parts[i].len() implies
            #[trigger] parts[i][j] != '\0' && parts[i][j] != '\\' by {
            assert(plain_component(parts[i]));
            assert(parts[i].contains(parts[i][j]));
        }
        assert forall|i: int| 0 <= i < parts.len() implies #[trigger] parts[i] != "."@ && parts[i]
            != ".."@ by {
            assert(plain_component(parts[i]));
        }
    } else if parts.len() > 0 {
        let i = choose|i: int| 0 <= i < parts.len() && !plain_component(#[trigger] parts[i]);
        let part = parts[i];
        if part.contains('\0') {
            let j = choose|j: int| 0 <= j < part.len() && part[j] == '\0';
            assert(parts[i][j] == '\0');
        } else if part.contains('\\') {
            let j = choose|j: int| 0 <= j < part.len() && part[j] == '\\';
            assert(parts[i][j] == '\\');
        }
    }
}

/// A directory of one component is that component, and a further component
/// follows after one slash, however many stood before it.
pub proof fn law_directory_grows(path: Seq<char>, part: Seq<char>)
    requires
        part.len() > 0,
        !part.contains('/'),
        plain_component(part),
    ensures
        directory_path(part) == Ok::<Seq<char>, ErrorView>(part),
        directory_path(path) is Ok ==> directory_path(path.push('/') + part) == Ok::<
            Seq<char>,
            ErrorView,
        >(directory_path(path)->Ok_0.push('/') + part),
        directory_path(path) is Ok ==> directory_path(path.push('/')) == directory_path(path),
        directory_path(path) is Ok ==> directory_path(seq!['/'] + path) == directory_path(path),
{
    lemma_one_component(part);
    assert(seq![part][0] == part);
    law_slash_separates(path, part);
    law_slash_separates(path, Seq::empty());
    law_slash_separates(Seq::empty(), path);
    let parts = components(path);
    if directory_path(path) is Ok {
        assert(parts + seq![part] == parts.push(part));
        lemma_joined_push(parts, part);
        assert forall|i: int| 0 <= i < parts.push(part).len() implies plain_component(
            #[trigger] parts.push(part)[i],
        ) by {
            if i < parts.len() {
                assert(plain_component(parts[i]));
            }
        }
        assert(path.push('/') + Seq::<char>::empty() == path.push('/'));
        assert(parts + Seq::<Seq<char>>::empty() == parts);
        assert(Seq::<char>::empty().push('/') + path == seq!['/'] + path);
        assert(Seq::<Seq<char>>::empty() + parts == parts);
    }
}

} // verus!
