//! What holds of calls that write and read numbers and paths.

use vstd::prelude::*;

use crate::decimal::{
    decimal, is_digit, law_parse_reads_decimal, lemma_decimal, number, parse_u64, parsed_u64, u64_to_string,
    unsigned_part,
};
use crate::path::{
    component_start, file_name, get_id_and_suffix_from_path, join, law_tablet_dir_read_back,
    law_tombstone_in_tablet_dir, lemma_file_name_behind, piece_end, tablet_path, tablets_path,
    tombstone_path, PathText,
};

verus! {

/// Whether a text holds the characters `0` to `9` alone.
pub open spec fn has_digits_alone(text: Seq<char>) -> bool {
    forall|i: int| 0 <= i < text.len() ==> '0' <= #[trigger] text[i] <= '9'
}

/// What digits come to, read from the left.
pub open spec fn value(digits: Seq<char>) -> int {
    digits.fold_left(0int, |n: int, c: char| 10 * n + (c as int - '0' as int))
}

/// Whether a text is the usual way to write a number: digits, without a zero in
/// front of others.
pub open spec fn is_written(n: u64, text: Seq<char>) -> bool {
    &&& text.len() > 0
    &&& has_digits_alone(text)
    &&& text[0] == '0' ==> text.len() == 1
    &&& value(text) == n
}

/// Whether a text can be read as a number: digits, with or without a plus sign
/// in front of them.
pub open spec fn is_read(text: Seq<char>, n: u64) -> bool {
    exists|digits: Seq<char>| #[trigger]
        has_digits_alone(digits) && digits.len() > 0 && value(digits) == n && (text == digits
            || text == seq!['+'] + digits)
}

/// What stands between a directory and what lies in it: one `/`, unless the
/// directory ends in one or is empty.
pub open spec fn separator(dir: Seq<char>) -> Seq<char> {
    if dir.len() > 0 && dir.last() != '/' {
        seq!['/']
    } else {
        Seq::empty()
    }
}

/// Whether a path has a text, with replacements or without.
pub open spec fn has_text(path: &PathText, text: Seq<char>) -> bool {
    match path {
        PathText::Exact(exact) => exact@ == text,
        PathText::Lossy(lossy) => lossy@ == text,
    }
}

/// Whether a text can be the name of a file or a directory.
pub open spec fn is_plain_name(name: Seq<char>) -> bool {
    &&& name.len() > 0
    &&& !name.contains('/')
    &&& name != seq!['.']
    &&& name != seq!['.', '.']
}

proof fn lemma_value(text: Seq<char>)
    requires
        has_digits_alone(text),
    ensures
        value(text) == number(text),
    decreases text.len(),
{
    if text.len() > 0 {
        assert('0' <= text[text.len() - 1] <= '9');
        assert forall|i: int| 0 <= i < text.drop_last().len() implies '0'
            <= #[trigger] text.drop_last()[i] <= '9' by {
            assert(text.drop_last()[i] == text[i]);
        }
        lemma_value(text.drop_last());
    }
}

proof fn lemma_no_zero_in_front(n: nat)
    ensures
        decimal(n)[0] == '0' ==> n == 0 && decimal(n).len() == 1,
    decreases n,
{
    if n >= 10 {
        lemma_no_zero_in_front(n / 10);
        lemma_decimal(n / 10);
        assert(decimal(n)[0] == decimal(n / 10)[0]);
    }
}

pub(crate) proof fn lemma_decimal_is_written(n: u64)
    ensures
        is_written(n, decimal(n as nat)),
{
    let text = decimal(n as nat);
    lemma_decimal(n as nat);
    lemma_no_zero_in_front(n as nat);
    assert forall|i: int| 0 <= i < text.len() implies '0' <= #[trigger] text[i] <= '9' by {
        assert(is_digit(text[i]));
    }
    lemma_value(text);
}

proof fn lemma_digits_of(text: Seq<char>, n: nat)
    requires
        text.len() > 0,
        has_digits_alone(text),
        text[0] == '0' ==> text.len() == 1,
        number(text) == n,
    ensures
        text == decimal(n),
    decreases text.len(),
{
    let front = text.drop_last();
    let last = text[text.len() - 1];
    assert('0' <= last <= '9');
    assert(number(text) == number(front) * 10 + (last as int - '0' as int));
    if text.len() == 1 {
        assert(front =~= Seq::<char>::empty());
        assert(number(front) == 0);
        assert(text =~= seq![last]);
        assert(text =~= decimal(n));
    } else {
        assert forall|i: int| 0 <= i < front.len() implies '0' <= #[trigger] front[i] <= '9' by {
            assert(front[i] == text[i]);
        }
        assert(front[0] == text[0]);
        lemma_digits_of(front, number(front));
        if number(front) == 0 {
            assert(decimal(0)[0] == '0');
        }
        assert(n / 10 == number(front));
        assert(n % 10 == last as int - '0' as int);
        assert(text =~= front.push(last));
        assert(text =~= decimal(n));
    }
}

pub(crate) proof fn lemma_written_once(n: u64, text: Seq<char>)
    requires
        is_written(n, text),
    ensures
        text == decimal(n as nat),
{
    lemma_value(text);
    lemma_digits_of(text, n as nat);
}

/// Writing a number gives the usual text of it, and there is no other.
pub proof fn law_number_is_written(n: u64, text: String, other: Seq<char>)
    requires
        call_ensures(u64_to_string, (n,), text),
    ensures
        is_written(n, text@),
        is_written(n, other) ==> other == text@,
{
    lemma_decimal_is_written(n);
    if is_written(n, other) {
        lemma_written_once(n, other);
    }
}

proof fn lemma_read(text: Seq<char>, n: u64)
    ensures
        is_read(text, n) <==> parsed_u64(text) == Some(n),
{
    if is_read(text, n) {
        let digits = choose|digits: Seq<char>| #[trigger]
            has_digits_alone(digits) && digits.len() > 0 && value(digits) == n && (text == digits
                || text == seq!['+'] + digits);
        assert('0' <= digits[0] <= '9');
        if text != digits {
            assert(text[0] == '+');
            assert(text.skip(1) =~= digits);
        }
        assert(unsigned_part(text) == digits);
        assert forall|i: int| 0 <= i < digits.len() implies is_digit(#[trigger] digits[i]) by {
            assert('0' <= digits[i] <= '9');
        }
        lemma_value(digits);
    }
    if parsed_u64(text) == Some(n) {
        let digits = unsigned_part(text);
        assert forall|i: int| 0 <= i < digits.len() implies '0' <= #[trigger] digits[i] <= '9' by {
            assert(is_digit(digits[i]));
        }
        lemma_value(digits);
        if text.len() > 0 && text[0] == '+' {
            assert(text =~= seq!['+'] + digits);
        }
        assert(has_digits_alone(digits));
    }
}

/// Reading a text gives a number exactly if the text can be read as that number.
pub proof fn law_number_is_read(chars: &Vec<char>, from: usize, to: usize, read: Option<u64>, n: u64)
    requires
        from <= to <= chars@.len(),
        call_ensures(parse_u64, (chars, from, to), read),
    ensures
        read == Some(n) <==> is_read(chars@.subrange(from as int, to as int), n),
{
    lemma_read(chars@.subrange(from as int, to as int), n);
}

/// Reading what was written gives the number back.
pub proof fn law_written_number_is_read(
    n: u64,
    text: String,
    chars: &Vec<char>,
    to: usize,
    read: Option<u64>,
)
    requires
        call_ensures(u64_to_string, (n,), text),
        chars@ == text@,
        to == chars@.len(),
        call_ensures(parse_u64, (chars, 0usize, to), read),
    ensures
        read == Some(n),
{
    assert(chars@.subrange(0, to as int) =~= chars@);
    law_parse_reads_decimal(n);
}

/// A path that is taken from a directory is the whole directory, what parts the
/// two, and the path. One that starts with `/` stands for itself.
pub proof fn law_join(base: &str, rel: &str, path: String)
    requires
        call_ensures(join, (base, rel), path),
    ensures
        rel@.len() > 0 && rel@[0] == '/' ==> path@ == rel@,
        !(rel@.len() > 0 && rel@[0] == '/') ==> path@ == base@ + separator(base@) + rel@,
{
    assert(base@ + seq!['/'] =~= base@.push('/'));
    assert(base@ + Seq::<char>::empty() =~= base@);
}

/// The directory of all tablets lies in the root: the whole text of the root
/// comes first, whatever the root is.
pub proof fn law_tablets_path(root: &str, path: String)
    requires
        call_ensures(tablets_path, (root,), path),
    ensures
        path@ == root@ + separator(root@) + "tablets"@,
{
    reveal_strlit("tablets");
    assert(path@ =~= root@ + separator(root@) + "tablets"@);
}

/// The directory of a tablet lies in the root, below `tablets`, and is named by
/// the id and the suffix as they are usually written.
pub proof fn law_tablet_path(
    root: &str,
    id: u64,
    suffix: u64,
    path: String,
    id_text: Seq<char>,
    suffix_text: Seq<char>,
)
    requires
        call_ensures(tablet_path, (root, id, suffix), path),
        is_written(id, id_text),
        is_written(suffix, suffix_text),
    ensures
        path@ == root@ + separator(root@) + "tablets/"@ + id_text + "_"@ + suffix_text,
{
    lemma_written_once(id, id_text);
    lemma_written_once(suffix, suffix_text);
    reveal_strlit("tablets/");
    reveal_strlit("_");
    assert(path@ =~= root@ + separator(root@) + "tablets/"@ + id_text + "_"@ + suffix_text);
}

/// The marker file of a tablet lies in the directory of the tablet.
pub proof fn law_tombstone_path(root: &str, id: u64, suffix: u64, dir: String, path: String)
    requires
        call_ensures(tablet_path, (root, id, suffix), dir),
        call_ensures(tombstone_path, (root, id, suffix), path),
    ensures
        path@ == dir@ + "/TOMBSTONE_TABLET"@,
{
    reveal_strlit("/TOMBSTONE_TABLET");
    reveal_strlit("TOMBSTONE_TABLET");
    law_tombstone_in_tablet_dir(root@, id, suffix);
    assert(path@ =~= dir@ + "/TOMBSTONE_TABLET"@);
}

proof fn lemma_roots(a: Seq<char>, b: Seq<char>)
    requires
        a + separator(a) == b + separator(b),
    ensures
        a == b || a == b + seq!['/'] || b == a + seq!['/'],
{
    let (s, t) = (separator(a), separator(b));
    if s.len() == t.len() {
        assert(a.len() == b.len());
        assert(a =~= (a + s).take(a.len() as int));
        assert(b =~= (b + t).take(b.len() as int));
    } else if s.len() == 0 {
        assert(a =~= a + s);
    } else {
        assert(b =~= b + t);
    }
}

/// Different roots have different directories, but for a `/` at the end of the
/// root: the directories of all tablets differ, and those of each tablet.
pub proof fn law_roots_are_apart(
    a: &str,
    b: &str,
    id: u64,
    suffix: u64,
    tablets: (String, String),
    tablet: (String, String),
)
    requires
        call_ensures(tablets_path, (a,), tablets.0),
        call_ensures(tablets_path, (b,), tablets.1),
        call_ensures(tablet_path, (a, id, suffix), tablet.0),
        call_ensures(tablet_path, (b, id, suffix), tablet.1),
        tablets.0@ == tablets.1@ || tablet.0@ == tablet.1@,
    ensures
        a@ == b@ || a@ == b@ + seq!['/'] || b@ == a@ + seq!['/'],
{
    let (p, q) = (a@ + separator(a@), b@ + separator(b@));
    law_tablets_path(a, tablets.0);
    law_tablets_path(b, tablets.1);
    let (x, y) = (decimal(id as nat), decimal(suffix as nat));
    lemma_decimal_is_written(id);
    lemma_decimal_is_written(suffix);
    law_tablet_path(a, id, suffix, tablet.0, x, y);
    law_tablet_path(b, id, suffix, tablet.1, x, y);
    let rest = "tablets/"@ + x + "_"@ + y;
    assert(tablet.0@ =~= p + rest);
    assert(tablet.1@ =~= q + rest);
    if tablets.0@ == tablets.1@ {
        assert(p =~= tablets.0@.take(p.len() as int));
        assert(q =~= tablets.1@.take(q.len() as int));
    } else {
        assert(p =~= tablet.0@.take(p.len() as int));
        assert(q =~= tablet.1@.take(q.len() as int));
    }
    lemma_roots(a@, b@);
}

/// Reading the id and the suffix off the directory of a tablet gives them back,
/// whatever the root is, so two tablets under one root never share a directory.
pub proof fn law_tablet_path_is_read_back(
    root: &str,
    id: u64,
    suffix: u64,
    path: String,
    ids: (u64, u64),
    other: (u64, u64),
    other_path: String,
)
    requires
        call_ensures(tablet_path, (root, id, suffix), path),
        call_ensures(get_id_and_suffix_from_path, (&PathText::Exact(path),), ids),
        call_ensures(tablet_path, (root, other.0, other.1), other_path),
    ensures
        ids == (id, suffix),
        other_path@ == path@ ==> other == (id, suffix),
{
    law_tablet_dir_read_back(root@, id, suffix);
    law_tablet_dir_read_back(root@, other.0, other.1);
}

proof fn lemma_first_component(name: Seq<char>)
    requires
        !name.contains('/'),
    ensures
        component_start(name) == 0,
    decreases name.len(),
{
    if name.len() > 0 {
        assert(name.contains(name[name.len() - 1]));
        assert forall|i: int| 0 <= i < name.drop_last().len() implies name.drop_last()[i] != '/' by {
            assert(name.contains(name[i]));
        }
        lemma_first_component(name.drop_last());
    }
}

proof fn lemma_plain_name(dir: Seq<char>, name: Seq<char>)
    requires
        is_plain_name(name),
        dir.len() == 0 || dir.last() == '/',
    ensures
        file_name(dir + name) == Some(name),
{
    if dir.len() == 0 {
        assert(dir + name =~= name);
        lemma_first_component(name);
        assert(name.skip(0) =~= name);
    } else {
        assert forall|i: int| 0 <= i < name.len() implies name[i] != '/' by {
            assert(name.contains(name[i]));
        }
        lemma_file_name_behind(dir.drop_last(), name);
        assert(dir.drop_last().push('/') =~= dir);
    }
}

proof fn lemma_piece(name: Seq<char>, from: int, piece: Seq<char>)
    requires
        0 <= from,
        from + piece.len() <= name.len(),
        forall|i: int| 0 <= i < piece.len() ==> name[from + i] == #[trigger] piece[i],
        !piece.contains('_'),
        from + piece.len() == name.len() || name[from + piece.len()] == '_',
    ensures
        piece_end(name, from) == from + piece.len(),
        name.subrange(from, from + piece.len()) == piece,
    decreases piece.len(),
{
    if piece.len() > 0 {
        assert(piece.contains(piece[0]));
        let rest = piece.skip(1);
        assert forall|i: int| 0 <= i < rest.len() implies name[from + 1 + i] == #[trigger] rest[i]
            && rest[i] != '_' by {
            assert(rest[i] == piece[i + 1]);
            assert(piece.contains(piece[i + 1]));
            assert(name[from + (i + 1)] == piece[i + 1]);
        }
        lemma_piece(name, from + 1, rest);
        assert(name[from + 0] == piece[0]);
    }
    assert(name.subrange(from, from + piece.len()) =~= piece);
}

/// The id that a path stands for is what the name at its end starts with, up to
/// a `_`, read as a number, and 0 if that is none.
pub proof fn law_id_of_path(
    path: &PathText,
    ids: (u64, u64),
    dir: Seq<char>,
    first: Seq<char>,
    rest: Seq<char>,
    n: u64,
)
    requires
        call_ensures(get_id_and_suffix_from_path, (path,), ids),
        has_text(path, dir + first + rest),
        dir.len() == 0 || dir.last() == '/',
        is_plain_name(first + rest),
        !first.contains('_'),
        rest.len() == 0 || rest[0] == '_',
    ensures
        is_read(first, n) ==> ids.0 == n,
        (forall|k: u64| !is_read(first, k)) ==> ids.0 == 0,
{
    let name = first + rest;
    assert(dir + first + rest =~= dir + name);
    lemma_plain_name(dir, name);
    lemma_piece(name, 0, first);
    lemma_read(first, n);
    if forall|k: u64| !is_read(first, k) {
        if parsed_u64(first) is Some {
            lemma_read(first, parsed_u64(first)->0);
        }
    }
}

/// The suffix that a path stands for is what follows the first `_` of the name
/// at its end, up to another `_`, read as a number, and 1 if that is none.
pub proof fn law_suffix_of_path(
    path: &PathText,
    ids: (u64, u64),
    dir: Seq<char>,
    first: Seq<char>,
    second: Seq<char>,
    rest: Seq<char>,
    n: u64,
)
    requires
        call_ensures(get_id_and_suffix_from_path, (path,), ids),
        has_text(path, dir + first + seq!['_'] + second + rest),
        dir.len() == 0 || dir.last() == '/',
        is_plain_name(first + seq!['_'] + second + rest),
        !first.contains('_'),
        !second.contains('_'),
        rest.len() == 0 || rest[0] == '_',
    ensures
        is_read(second, n) ==> ids.1 == n,
        (forall|k: u64| !is_read(second, k)) ==> ids.1 == 1,
{
    let name = first + seq!['_'] + second + rest;
    assert(dir + first + seq!['_'] + second + rest =~= dir + name);
    lemma_plain_name(dir, name);
    lemma_piece(name, 0, first);
    lemma_piece(name, first.len() as int + 1, second);
    lemma_read(second, n);
    if forall|k: u64| !is_read(second, k) {
        if parsed_u64(second) is Some {
            lemma_read(second, parsed_u64(second)->0);
        }
    }
}

/// A path whose name holds no `_` stands for the suffix 1.
pub proof fn law_suffix_without_underscore(
    path: &PathText,
    ids: (u64, u64),
    dir: Seq<char>,
    name: Seq<char>,
)
    requires
        call_ensures(get_id_and_suffix_from_path, (path,), ids),
        has_text(path, dir + name),
        dir.len() == 0 || dir.last() == '/',
        is_plain_name(name),
        !name.contains('_'),
    ensures
        ids.1 == 1,
{
    lemma_plain_name(dir, name);
    lemma_piece(name, 0, name);
}

/// A `/` or a `/.` at the end of a path counts for nothing, and neither does it
/// matter whether the text of the path is exact.
pub proof fn law_end_of_path_counts_for_nothing(
    path: &PathText,
    other: &PathText,
    ids: (u64, u64),
    other_ids: (u64, u64),
    text: Seq<char>,
)
    requires
        call_ensures(get_id_and_suffix_from_path, (path,), ids),
        call_ensures(get_id_and_suffix_from_path, (other,), other_ids),
        has_text(path, text),
        has_text(other, text) || has_text(other, text + seq!['/']) || has_text(
            other,
            text + seq!['/', '.'],
        ),
    ensures
        other_ids == ids,
{
    let t = match other {
        PathText::Exact(exact) => exact@,
        PathText::Lossy(lossy) => lossy@,
    };
    if t == text + seq!['/'] {
        assert(t.skip(t.len() as int) =~= Seq::<char>::empty());
        assert(t.take(t.len() - 1) =~= text);
    } else if t == text + seq!['/', '.'] {
        assert(t.drop_last() =~= text.push('/'));
        assert(t.last() == '.');
        assert(t.drop_last().last() == '/');
        assert(component_start(t.drop_last()) == t.len() - 1);
        assert(t.skip(t.len() - 1) =~= seq!['.']);
        assert(t.take(t.len() - 2) =~= text);
    }
}

/// A path that holds no name, or ends in `..`, stands for `(0, 1)`.
pub proof fn law_path_without_name(path: &PathText, ids: (u64, u64), text: Seq<char>, dir: Seq<char>)
    requires
        call_ensures(get_id_and_suffix_from_path, (path,), ids),
        has_text(path, text),
        text.len() == 0 || text == seq!['.'] || text == seq!['.', '.'] || text == dir + seq![
            '/',
            '.',
            '.',
        ],
    ensures
        ids == (0u64, 1u64),
{
    if text.len() == 0 {
        assert(text.skip(0) =~= Seq::<char>::empty());
    } else if text == seq!['.'] {
        lemma_first_component(text);
        assert(text.skip(0) =~= seq!['.']);
    } else if text == seq!['.', '.'] {
        lemma_first_component(text);
        assert(text.skip(0) =~= seq!['.', '.']);
        assert(text.skip(0)[1] == '.');
        assert(seq!['.'].len() == 1);
        assert(text.skip(0).len() == 2);
    } else {
        let start = dir.len() + 1;
        assert(text.drop_last().drop_last() =~= dir.push('/'));
        assert(text.last() == '.' && text.drop_last().last() == '.');
        assert(component_start(text.drop_last().drop_last()) == start);
        assert(component_start(text.drop_last()) == start);
        assert(component_start(text) == start);
        assert(text.skip(start as int) =~= seq!['.', '.']);
        assert(text.skip(start as int).len() == 2);
    }
}

/// The text of a path to ask about is its exact text, and empty where there is
/// none.
pub proof fn law_exact_text(path: &PathText, text: String)
    requires
        call_ensures(PathText::to_str_or_default, (path,), text),
    ensures
        path is Exact ==> text@ == path->Exact_0@,
        path is Lossy ==> text@.len() == 0,
{
}

/// Every number, every text and every path is taken, whatever it is.
pub proof fn law_paths_take_every_input(
    n: u64,
    chars: &Vec<char>,
    from: usize,
    to: usize,
    base: &str,
    rel: &str,
    suffix: u64,
    path: &PathText,
)
    ensures
        call_requires(u64_to_string, (n,)),
        from <= to <= chars@.len() ==> call_requires(parse_u64, (chars, from, to)),
        call_requires(join, (base, rel)),
        call_requires(tablets_path, (base,)),
        call_requires(tablet_path, (base, n, suffix)),
        call_requires(tombstone_path, (base, n, suffix)),
        call_requires(get_id_and_suffix_from_path, (path,)),
        call_requires(PathText::to_str_or_default, (path,)),
{
}

} // verus!
