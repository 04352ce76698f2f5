//! Paths as text, and where the tablets of a factory lie.
//!
//! A path is read as a sequence of components with `/` between them. Empty
//! components and `.` count for nothing, as in `std::path` on the platforms
//! that separate components by `/` alone.

use vstd::prelude::*;

use crate::decimal::{
    decimal, is_digit, law_parse_reads_decimal, lemma_decimal, parse_u64, parsed_u64, u64_to_string,
};

verus! {

/// The name of the marker file that says that a tablet is not to be used any
/// more.
pub const TOMBSTONE_MARK: &'static str = "TOMBSTONE_TABLET";

/// What a path is when `rel` is taken from `base`. An absolute `rel` stands for
/// itself; otherwise one `/` parts the two, unless `base` is empty or ends in
/// one.
pub open spec fn joined(base: Seq<char>, rel: Seq<char>) -> Seq<char> {
    if rel.len() > 0 && rel[0] == '/' {
        rel
    } else if base.len() == 0 || base.last() == '/' {
        base + rel
    } else {
        base.push('/') + rel
    }
}

/// Where the last component of a path starts: behind the last `/`, or at the
/// front.
pub open spec fn component_start(path: Seq<char>) -> nat
    decreases path.len(),
{
    if path.len() == 0 || path.last() == '/' {
        path.len()
    } else {
        component_start(path.drop_last())
    }
}

/// The last component of a path that is neither empty nor `.`, if there is one
/// and it is not `..`.
pub open spec fn file_name(path: Seq<char>) -> Option<Seq<char>>
    decreases path.len(),
{
    proof {
        lemma_component_start(path);
    }
    let start = component_start(path);
    let component = path.skip(start as int);
    if component == Seq::<char>::empty() || component == seq!['.'] {
        if start == 0 {
            None
        } else {
            file_name(path.take(start - 1))
        }
    } else if component == seq!['.', '.'] {
        None
    } else {
        Some(component)
    }
}

/// Where the piece of a name that starts at `from` ends: at the next `_`, or at
/// the end of the name.
pub open spec fn piece_end(name: Seq<char>, from: int) -> int
    decreases name.len() - from,
{
    if 0 <= from < name.len() && name[from] != '_' {
        piece_end(name, from + 1)
    } else {
        from
    }
}

/// The tablet id and the tablet suffix that a file name holds: its first two
/// pieces between `_`, read as numbers. The id is 0 and the suffix is 1 where
/// there is no such piece or it is no number.
pub open spec fn id_and_suffix_of_name(name: Seq<char>) -> (u64, u64) {
    let first = piece_end(name, 0);
    let second = piece_end(name, first + 1);
    let id = match parsed_u64(name.subrange(0, first)) {
        Some(id) => id,
        None => 0,
    };
    let suffix = if first < name.len() {
        match parsed_u64(name.subrange(first + 1, second)) {
            Some(suffix) => suffix,
            None => 1,
        }
    } else {
        1
    };
    (id, suffix)
}

/// The tablet id and the tablet suffix that a path stands for, by its file
/// name. A path without one stands for `(0, 1)`.
pub open spec fn id_and_suffix(path: Seq<char>) -> (u64, u64) {
    match file_name(path) {
        Some(name) => id_and_suffix_of_name(name),
        None => (0, 1),
    }
}

/// The file name of a tablet.
pub open spec fn tablet_name(id: u64, suffix: u64) -> Seq<char> {
    decimal(id as nat) + "_"@ + decimal(suffix as nat)
}

/// The directory under `root` that holds all tablets.
pub open spec fn tablets_dir(root: Seq<char>) -> Seq<char> {
    joined(root, "tablets"@)
}

/// The directory of one tablet under `root`.
pub open spec fn tablet_dir(root: Seq<char>, id: u64, suffix: u64) -> Seq<char> {
    joined(root, "tablets/"@ + tablet_name(id, suffix))
}

/// The marker file of one tablet under `root`.
pub open spec fn tombstone_file(root: Seq<char>, id: u64, suffix: u64) -> Seq<char> {
    joined(tablet_dir(root, id, suffix), TOMBSTONE_MARK@)
}

/// A path as text. A path that is not valid UTF-8 has no exact text, only one
/// in which replacement characters stand for what cannot be shown.
pub enum PathText {
    /// The text of the path.
    Exact(String),
    /// The text of a path that is not valid UTF-8, with replacements.
    Lossy(String),
}

impl PathText {
    /// The text of the path, with replacements where there have to be any.
    pub open spec fn lossy(self) -> Seq<char> {
        match self {
            PathText::Exact(text) => text@,
            PathText::Lossy(text) => text@,
        }
    }

    /// The exact text of the path, or the empty text where it has none.
    pub open spec fn strict(self) -> Seq<char> {
        match self {
            PathText::Exact(text) => text@,
            PathText::Lossy(_) => Seq::empty(),
        }
    }

    /// The exact text of the path, or the empty text where it has none.
    pub fn to_str_or_default(&self) -> (text: String)
        ensures
            text@ == self.strict(),
    {
        match self {
            PathText::Exact(text) => text.clone(),
            PathText::Lossy(_) => String::new(),
        }
    }
}

/// A component starts inside its path.
pub proof fn lemma_component_start(path: Seq<char>)
    ensures
        component_start(path) <= path.len(),
    decreases path.len(),
{
    if path.len() > 0 && path.last() != '/' {
        lemma_component_start(path.drop_last());
    }
}

/// A piece ends at `end` if no `_` stands before it, and a `_` or nothing stands
/// there.
proof fn lemma_piece_end_at(name: Seq<char>, from: int, end: int)
    requires
        0 <= from <= end <= name.len(),
        forall|i: int| from <= i < end ==> name[i] != '_',
        end == name.len() || name[end] == '_',
    ensures
        piece_end(name, from) == end,
    decreases end - from,
{
    if from < end {
        assert(name[from] != '_');
        lemma_piece_end_at(name, from + 1, end);
    }
}

/// What follows the last `/` is the last component.
proof fn lemma_component_behind(dir: Seq<char>, name: Seq<char>)
    requires
        forall|i: int| 0 <= i < name.len() ==> name[i] != '/',
    ensures
        component_start(dir.push('/') + name) == dir.len() + 1,
    decreases name.len(),
{
    let path = dir.push('/') + name;
    if name.len() == 0 {
        assert(path =~= dir.push('/'));
    } else {
        assert(path.last() == name.last());
        assert(name.last() == name[name.len() - 1]);
        assert(path.drop_last() =~= dir.push('/') + name.drop_last());
        lemma_component_behind(dir, name.drop_last());
    }
}

/// An ordinary name behind the last `/` of a path is the file name of the path.
pub proof fn lemma_file_name_behind(dir: Seq<char>, name: Seq<char>)
    requires
        forall|i: int| 0 <= i < name.len() ==> name[i] != '/',
        name.len() > 0,
        name != seq!['.'],
        name != seq!['.', '.'],
    ensures
        file_name(dir.push('/') + name) == Some(name),
{
    let path = dir.push('/') + name;
    lemma_component_behind(dir, name);
    assert(path.skip(dir.len() as int + 1) =~= name);
}

/// A tablet's directory lies behind one `/` in the directory of all tablets.
pub proof fn law_tablet_dir_in_tablets_dir(root: Seq<char>, id: u64, suffix: u64)
    ensures
        tablet_dir(root, id, suffix) == tablets_dir(root).push('/') + tablet_name(id, suffix),
        tablet_dir(root, id, suffix) == joined(tablets_dir(root), tablet_name(id, suffix)),
{
    reveal_strlit("tablets");
    reveal_strlit("tablets/");
    lemma_tablet_name(id, suffix);
    let name = tablet_name(id, suffix);
    assert("tablets/"@ =~= "tablets"@.push('/'));
    assert(tablet_dir(root, id, suffix) =~= tablets_dir(root).push('/') + name);
    assert(tablets_dir(root).last() == 's');
}

/// The characters of a tablet's name are digits, but for the `_` between the
/// two numbers.
proof fn lemma_tablet_name(id: u64, suffix: u64)
    ensures
        ({
            let name = tablet_name(id, suffix);
            let k = decimal(id as nat).len();
            &&& 0 < k < name.len() - 1
            &&& name[k as int] == '_'
            &&& forall|i: int| 0 <= i < name.len() && i != k ==> is_digit(#[trigger] name[i])
            &&& name.subrange(0, k as int) == decimal(id as nat)
            &&& name.subrange(k as int + 1, name.len() as int) == decimal(suffix as nat)
        }),
{
    reveal_strlit("_");
    lemma_decimal(id as nat);
    lemma_decimal(suffix as nat);
    let a = decimal(id as nat);
    let b = decimal(suffix as nat);
    let name = tablet_name(id, suffix);
    assert(name.len() == a.len() + 1 + b.len());
    assert forall|i: int| 0 <= i < name.len() && i != a.len() implies is_digit(
        #[trigger] name[i],
    ) by {
        if i < a.len() {
            assert(name[i] == a[i]);
        } else {
            assert(name[i] == b[i - a.len() - 1]);
        }
    }
    assert(name.subrange(0, a.len() as int) =~= a);
    assert(name.subrange(a.len() as int + 1, name.len() as int) =~= b);
}

/// A tablet's name holds its id and its suffix.
pub proof fn law_tablet_name_read_back(id: u64, suffix: u64)
    ensures
        id_and_suffix_of_name(tablet_name(id, suffix)) == (id, suffix),
{
    lemma_tablet_name(id, suffix);
    let name = tablet_name(id, suffix);
    let k = decimal(id as nat).len() as int;
    assert forall|i: int| 0 <= i < name.len() && i != k implies name[i] != '_' by {
        assert(is_digit(name[i]));
    }
    lemma_piece_end_at(name, 0, k);
    lemma_piece_end_at(name, k + 1, name.len() as int);
    law_parse_reads_decimal(id);
    law_parse_reads_decimal(suffix);
}

/// The directory of a tablet, under whatever root, stands for the id and the
/// suffix of the tablet.
pub proof fn law_tablet_dir_read_back(root: Seq<char>, id: u64, suffix: u64)
    ensures
        file_name(tablet_dir(root, id, suffix)) == Some(tablet_name(id, suffix)),
        id_and_suffix(tablet_dir(root, id, suffix)) == (id, suffix),
{
    let name = tablet_name(id, suffix);
    law_tablet_dir_in_tablets_dir(root, id, suffix);
    lemma_tablet_name(id, suffix);
    let k = decimal(id as nat).len() as int;
    assert forall|i: int| 0 <= i < name.len() implies name[i] != '/' by {
        if i != k {
            assert(is_digit(name[i]));
        }
    }
    assert(is_digit(name[0]));
    assert(seq!['.', '.'][0] == '.');
    assert(seq!['.'][0] == '.');
    lemma_file_name_behind(tablets_dir(root), name);
    law_tablet_name_read_back(id, suffix);
}

/// Two tablets under one root never share a directory.
pub proof fn law_tablet_dirs_differ(root: Seq<char>, a: (u64, u64), b: (u64, u64))
    requires
        tablet_dir(root, a.0, a.1) == tablet_dir(root, b.0, b.1),
    ensures
        a == b,
{
    law_tablet_dir_read_back(root, a.0, a.1);
    law_tablet_dir_read_back(root, b.0, b.1);
}

/// The marker file of a tablet lies in the directory of the tablet, under the
/// marker's name.
pub proof fn law_tombstone_in_tablet_dir(root: Seq<char>, id: u64, suffix: u64)
    ensures
        tombstone_file(root, id, suffix) == tablet_dir(root, id, suffix).push('/')
            + TOMBSTONE_MARK@,
        file_name(tombstone_file(root, id, suffix)) == Some(TOMBSTONE_MARK@),
{
    reveal_strlit("TOMBSTONE_TABLET");
    let dir = tablet_dir(root, id, suffix);
    law_tablet_dir_in_tablets_dir(root, id, suffix);
    lemma_tablet_name(id, suffix);
    let name = tablet_name(id, suffix);
    assert(dir.last() == name[name.len() - 1]);
    assert(is_digit(name[name.len() - 1]));
    let mark = TOMBSTONE_MARK@;
    assert(mark.len() == 16);
    assert forall|i: int| 0 <= i < mark.len() implies mark[i] != '/' by {}
    lemma_file_name_behind(dir, mark);
}

/// The characters of a text.
fn chars_of(text: &str) -> (chars: Vec<char>)
    ensures
        chars@ == text@,
{
    let mut chars: Vec<char> = Vec::new();
    for c in it: text.chars()
        invariant
            it.seq() == text@,
            chars@ == text@.take(it.index()),
    {
        chars.push(c);
        assert(text@.take(it.index() + 1) =~= text@.take(it.index()).push(c));
    }
    assert(text@.take(text@.len() as int) =~= text@);
    chars
}

/// Takes the path `rel` from `base`.
pub fn join(base: &str, rel: &str) -> (path: String)
    ensures
        path@ == joined(base@, rel@),
{
    let rel_len = rel.unicode_len();
    if rel_len > 0 && rel.get_char(0) == '/' {
        return rel.to_owned();
    }
    let base_len = base.unicode_len();
    let mut path = base.to_owned();
    if base_len > 0 && base.get_char(base_len - 1) != '/' {
        proof {
            reveal_strlit("/");
        }
        path.append("/");
        assert(path@ =~= base@.push('/'));
    }
    path.append(rel);
    path
}

/// Where the file name stands among the characters of a path.
fn file_name_range(chars: &Vec<char>) -> (range: Option<(usize, usize)>)
    ensures
        match range {
            Some((from, to)) => from <= to <= chars@.len() && file_name(chars@) == Some(
                chars@.subrange(from as int, to as int),
            ),
            None => file_name(chars@) is None,
        },
{
    let mut end: usize = chars.len();
    assert(chars@.take(end as int) =~= chars@);
    loop
        invariant
            end <= chars@.len(),
            file_name(chars@) == file_name(chars@.take(end as int)),
        decreases end,
    {
        let ghost path = chars@.take(end as int);
        let mut start: usize = end;
        while start > 0 && chars[start - 1] != '/'
            invariant
                start <= end <= chars@.len(),
                path == chars@.take(end as int),
                component_start(path) == component_start(chars@.take(start as int)),
            decreases start,
        {
            assert(chars@.take(start as int).drop_last() =~= chars@.take(start - 1));
            start = start - 1;
        }
        assert(component_start(path) == start);
        let ghost component = path.skip(start as int);
        assert(component =~= chars@.subrange(start as int, end as int));
        let len: usize = end - start;
        if len == 0 || (len == 1 && chars[start] == '.') {
            proof {
                if len == 0 {
                    assert(component =~= Seq::<char>::empty());
                } else {
                    assert(component =~= seq!['.']);
                }
            }
            if start == 0 {
                return None;
            }
            assert(path.take(start - 1) =~= chars@.take(start - 1));
            end = start - 1;
        } else {
            proof {
                assert(component.len() == len);
                assert(len == 1 ==> component[0] != seq!['.'][0]);
            }
            if len == 2 && chars[start] == '.' && chars[start + 1] == '.' {
                assert(component =~= seq!['.', '.']);
                return None;
            }
            proof {
                assert(component[0] == chars@[start as int]);
                if len == 2 {
                    assert(component[1] == chars@[start + 1]);
                }
                assert(component != seq!['.', '.']) by {
                    if component == seq!['.', '.'] {
                        assert(component[0] == '.' && component[1] == '.');
                    }
                }
            }
            return Some((start, end));
        }
    }
}

/// Where the piece of a name that starts at `from` ends, the name being
/// `chars[start..to]`.
fn find_piece_end(
    chars: &Vec<char>,
    from: usize,
    to: usize,
    Ghost(start): Ghost<int>,
) -> (end: usize)
    requires
        0 <= start <= from <= to <= chars@.len(),
    ensures
        from <= end <= to,
        end - start == piece_end(chars@.subrange(start, to as int), from - start),
{
    let ghost name = chars@.subrange(start, to as int);
    let mut end: usize = from;
    while end < to && chars[end] != '_'
        invariant
            0 <= start <= from <= end <= to <= chars@.len(),
            name == chars@.subrange(start, to as int),
            piece_end(name, from - start) == piece_end(name, end - start),
        decreases to - end,
    {
        assert(name[end - start] == chars@[end as int]);
        end = end + 1;
    }
    assert(end < to ==> name[end - start] == chars@[end as int]);
    end
}

/// Extracts the tablet id and the tablet suffix from a path.
pub fn get_id_and_suffix_from_path(path: &PathText) -> (ids: (u64, u64))
    ensures
        ids == id_and_suffix(path.lossy()),
{
    let text = match path {
        PathText::Exact(text) => text,
        PathText::Lossy(text) => text,
    };
    let chars = chars_of(text.as_str());
    match file_name_range(&chars) {
        None => (0, 1),
        Some((from, to)) => {
            let ghost name = chars@.subrange(from as int, to as int);
            let first = find_piece_end(&chars, from, to, Ghost(from as int));
            assert(name.subrange(0, first - from) =~= chars@.subrange(from as int, first as int));
            let id: u64 = match parse_u64(&chars, from, first) {
                Some(id) => id,
                None => 0,
            };
            let suffix: u64 = if first < to {
                let second = find_piece_end(&chars, first + 1, to, Ghost(from as int));
                assert(name.subrange(first - from + 1, second - from) =~= chars@.subrange(
                    first + 1,
                    second as int,
                ));
                match parse_u64(&chars, first + 1, second) {
                    Some(suffix) => suffix,
                    None => 1,
                }
            } else {
                1
            };
            (id, suffix)
        },
    }
}

/// The directory under `root` that holds all tablets.
pub fn tablets_path(root: &str) -> (path: String)
    ensures
        path@ == tablets_dir(root@),
{
    join(root, "tablets")
}

/// The directory of one tablet under `root`.
pub fn tablet_path(root: &str, id: u64, suffix: u64) -> (path: String)
    ensures
        path@ == tablet_dir(root@, id, suffix),
{
    let mut rel = "tablets/".to_owned();
    rel.append(u64_to_string(id).as_str());
    rel.append("_");
    rel.append(u64_to_string(suffix).as_str());
    assert(rel@ =~= "tablets/"@ + tablet_name(id, suffix));
    join(root, rel.as_str())
}

/// The marker file of one tablet under `root`.
pub fn tombstone_path(root: &str, id: u64, suffix: u64) -> (path: String)
    ensures
        path@ == tombstone_file(root@, id, suffix),
{
    join(tablet_path(root, id, suffix).as_str(), TOMBSTONE_MARK)
}

} // verus!
