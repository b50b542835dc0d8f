//! File names inside Unix paths, which are byte strings.

use vstd::prelude::*;

verus! {

pub const SLASH: u8 = 0x2f;

pub const DOT: u8 = 0x2e;

/// Where the last component of `path` ends: slashes and `.` components behind it do not count.
pub open spec fn name_end(path: Seq<u8>) -> int
    decreases path.len(),
{
    if path.len() == 0 {
        0
    } else if path.last() == SLASH {
        name_end(path.drop_last())
    } else if path.last() == DOT && (path.len() == 1 || path[path.len() - 2] == SLASH) {
        name_end(path.drop_last())
    } else {
        path.len() as int
    }
}

/// Where the component that ends at `end` starts: behind the slash before it.
pub open spec fn name_start(path: Seq<u8>, end: int) -> int
    decreases end,
{
    if end <= 0 || path[end - 1] == SLASH {
        end
    } else {
        name_start(path, end - 1)
    }
}

/// The file name that `path` ends with: its last component, unless that is `..`.
pub open spec fn path_file_name(path: Seq<u8>) -> Option<Seq<u8>> {
    let end = name_end(path);
    let name = path.subrange(name_start(path, end), end);
    if name.len() == 0 || name == seq![DOT, DOT] {
        None
    } else {
        Some(name)
    }
}

/// How long `name` is without its extension: up to its last dot, unless that dot opens it.
pub open spec fn stem_len(name: Seq<u8>, end: int) -> int
    decreases end,
{
    if end <= 1 {
        name.len() as int
    } else if name[end - 1] == DOT {
        end - 1
    } else {
        stem_len(name, end - 1)
    }
}

/// The name without its extension.
pub open spec fn file_stem(name: Seq<u8>) -> Seq<u8> {
    name.take(stem_len(name, name.len() as int))
}

/// What stands before the file name.
pub open spec fn path_directory(path: Seq<u8>) -> Seq<u8> {
    path.take(name_start(path, name_end(path)))
}

/// What an extension adds to a stem: a dot and the extension, or nothing where it is empty.
pub open spec fn extension_part(extension: Seq<u8>) -> Seq<u8> {
    if extension.len() == 0 {
        seq![]
    } else {
        seq![DOT] + extension
    }
}

/// `path` with the extension of its file name replaced, or added where it has none.
pub open spec fn path_with_extension(path: Seq<u8>, extension: Seq<u8>) -> Seq<u8> {
    match path_file_name(path) {
        Some(name) => path_directory(path) + file_stem(name) + extension_part(extension),
        None => path,
    }
}

proof fn lemma_name_bounds(path: Seq<u8>, end: int)
    requires
        0 <= end <= path.len(),
    ensures
        0 <= name_start(path, end) <= end,
        forall|i: int| name_start(path, end) <= i < end ==> path[i] != SLASH,
        name_start(path, end) > 0 ==> path[name_start(path, end) - 1] == SLASH,
    decreases end,
{
    if end > 0 && path[end - 1] != SLASH {
        lemma_name_bounds(path, end - 1);
    }
}

proof fn lemma_name_end(path: Seq<u8>)
    ensures
        0 <= name_end(path) <= path.len(),
        name_end(path) > 0 ==> path[name_end(path) - 1] != SLASH,
    decreases path.len(),
{
    if path.len() > 0 {
        lemma_name_end(path.drop_last());
    }
}

proof fn lemma_stem_len(name: Seq<u8>, end: int)
    requires
        0 <= end <= name.len(),
    ensures
        0 <= stem_len(name, end) <= name.len(),
        name.len() > 0 ==> stem_len(name, end) > 0,
    decreases end,
{
    if end > 1 && name[end - 1] != DOT {
        lemma_stem_len(name, end - 1);
    }
}

/// Where the last component of `path` starts and ends.
fn last_component(path: &[u8]) -> (r: (usize, usize))
    ensures
        r.0 <= r.1 <= path@.len(),
        r.1 == name_end(path@),
        r.0 == name_start(path@, r.1 as int),
{
    let mut end: usize = path.len();
    assert(path@.take(end as int) =~= path@);
    while end > 0 && (path[end - 1] == SLASH || (path[end - 1] == DOT && (end == 1 || path[end
        - 2] == SLASH)))
        invariant
            end <= path@.len(),
            name_end(path@.take(end as int)) == name_end(path@),
        decreases end,
    {
        assert(path@.take(end as int).drop_last() =~= path@.take(end - 1));
        end = end - 1;
    }
    let mut start: usize = end;
    while start > 0 && path[start - 1] != SLASH
        invariant
            start <= end <= path@.len(),
            name_start(path@, start as int) == name_start(path@, end as int),
        decreases start,
    {
        start = start - 1;
    }
    (start, end)
}

/// Whether the component between `start` and `end` names a file: it is neither empty nor `..`.
fn names_file(path: &[u8], start: usize, end: usize) -> (r: bool)
    requires
        start <= end <= path@.len(),
    ensures
        r == ({
            let name = path@.subrange(start as int, end as int);
            name.len() != 0 && name != seq![DOT, DOT]
        }),
{
    let ghost name = path@.subrange(start as int, end as int);
    let ghost parent = seq![DOT, DOT];
    assert(parent.len() == 2 && parent[0] == DOT && parent[1] == DOT);
    if end - start == 2 {
        if path[start] == DOT && path[start + 1] == DOT {
            assert(name =~= parent);
            false
        } else {
            assert(name[0] == path@[start as int] && name[1] == path@[start + 1]);
            true
        }
    } else {
        end > start
    }
}

/// The bytes of `path` between `start` and `end`.
fn copy_range(path: &[u8], start: usize, end: usize) -> (r: Vec<u8>)
    requires
        start <= end <= path@.len(),
    ensures
        r@ == path@.subrange(start as int, end as int),
{
    let mut bytes: Vec<u8> = Vec::new();
    let mut i: usize = start;
    while i < end
        invariant
            start <= i <= end <= path@.len(),
            bytes@ == path@.subrange(start as int, i as int),
        decreases end - i,
    {
        bytes.push(path[i]);
        i = i + 1;
        assert(bytes@ =~= path@.subrange(start as int, i as int));
    }
    bytes
}

/// The file name that `path` ends with, if it ends with one.
pub fn file_name(path: &[u8]) -> (r: Option<Vec<u8>>)
    ensures
        match r {
            Some(name) => path_file_name(path@) == Some(name@),
            None => path_file_name(path@) is None,
        },
{
    let (start, end) = last_component(path);
    if names_file(path, start, end) {
        Some(copy_range(path, start, end))
    } else {
        None
    }
}

/// `path` with the extension of its file name replaced, or added where it has none.
pub fn with_extension(path: &[u8], extension: &[u8]) -> (r: Vec<u8>)
    ensures
        r@ == path_with_extension(path@, extension@),
{
    let (start, end) = last_component(path);
    if !names_file(path, start, end) {
        let copy = copy_range(path, 0, path.len());
        assert(copy@ =~= path@);
        return copy;
    }
    let ghost name = path@.subrange(start as int, end as int);
    let mut cut: usize = end;
    while cut > start + 1 && path[cut - 1] != DOT
        invariant
            start < end <= path@.len(),
            start < cut <= end,
            name == path@.subrange(start as int, end as int),
            stem_len(name, cut - start) == stem_len(name, name.len() as int),
        decreases cut,
    {
        assert(name[cut - 1 - start] == path@[cut - 1]);
        cut = cut - 1;
    }
    let stem_end: usize = if cut > start + 1 {
        cut - 1
    } else {
        end
    };
    proof {
        if cut > start + 1 {
            assert(name[cut - 1 - start] == path@[cut - 1]);
        }
    }
    let mut bytes = copy_range(path, 0, stem_end);
    assert(bytes@ =~= path_directory(path@) + file_stem(name));
    if extension.len() == 0 {
        assert(bytes@ =~= path_with_extension(path@, extension@));
        return bytes;
    }
    bytes.push(DOT);
    let mut i: usize = 0;
    while i < extension.len()
        invariant
            i <= extension@.len(),
            bytes@ == path_directory(path@) + file_stem(name) + seq![DOT] + extension@.take(i as int),
        decreases extension@.len() - i,
    {
        bytes.push(extension[i]);
        i = i + 1;
        assert(bytes@ =~= path_directory(path@) + file_stem(name) + seq![DOT] + extension@.take(i as int));
    }
    assert(extension@.take(i as int) =~= extension@);
    assert(bytes@ =~= path_with_extension(path@, extension@));
    bytes
}

/// Replacing the extension keeps the directory: the new path names a file beside the old
/// one, with the same stem and the new extension.
pub proof fn law_extension_keeps_directory(path: Seq<u8>, extension: Seq<u8>)
    requires
        path_file_name(path) is Some,
        extension.len() > 0,
        forall|i: int| 0 <= i < extension.len() ==> extension[i] != SLASH && extension[i] != DOT,
    ensures
        path_directory(path_with_extension(path, extension)) == path_directory(path),
        path_file_name(path_with_extension(path, extension)) == Some(
            file_stem(path_file_name(path)->0) + seq![DOT] + extension,
        ),
        file_stem(path_file_name(path_with_extension(path, extension))->0) == file_stem(
            path_file_name(path)->0,
        ),
{
    let end = name_end(path);
    let start = name_start(path, end);
    lemma_name_end(path);
    lemma_name_bounds(path, end);
    let name = path.subrange(start, end);
    lemma_stem_len(name, name.len() as int);
    let stem = file_stem(name);
    let new_name = stem + seq![DOT] + extension;
    let new_path = path_with_extension(path, extension);
    assert(new_path =~= path.take(start) + new_name);
    assert(new_path.last() == extension.last());
    assert(name_end(new_path) == new_path.len());
    assert forall|i: int| start <= i < new_path.len() implies new_path[i] != SLASH by {
        assert(new_path[i] == new_name[i - start]);
        if i - start < stem.len() {
            assert(new_name[i - start] == path[i]);
        }
    }
    lemma_start_unique(new_path, new_path.len() as int, start);
    assert(new_path.subrange(start, new_path.len() as int) =~= new_name);
    assert(new_name.last() == extension.last());
    assert(new_name != seq![DOT, DOT]);
    assert(path_directory(new_path) =~= path_directory(path));
    lemma_stem_of_extended(stem, extension, new_name.len() as int);
    assert(file_stem(new_name) =~= stem);
}

proof fn lemma_start_unique(path: Seq<u8>, end: int, start: int)
    requires
        0 <= start <= end <= path.len(),
        forall|i: int| start <= i < end ==> path[i] != SLASH,
        start > 0 ==> path[start - 1] == SLASH,
    ensures
        name_start(path, end) == start,
    decreases end,
{
    if start < end {
        lemma_start_unique(path, end - 1, start);
    }
}

proof fn lemma_stem_of_extended(stem: Seq<u8>, extension: Seq<u8>, end: int)
    requires
        stem.len() > 0,
        forall|i: int| 0 <= i < extension.len() ==> extension[i] != DOT,
        stem.len() < end <= stem.len() + 1 + extension.len(),
    ensures
        stem_len(stem + seq![DOT] + extension, end) == stem.len(),
    decreases end,
{
    let name = stem + seq![DOT] + extension;
    if end > stem.len() + 1 {
        assert(name[end - 1] == extension[end - 2 - stem.len()]);
        lemma_stem_of_extended(stem, extension, end - 1);
    } else {
        assert(name[end - 1] == DOT);
    }
}

/// A name is the name of a file: it is not empty, holds no slash, and is neither `.` nor `..`.
pub open spec fn is_name(name: Seq<u8>) -> bool {
    &&& name.len() > 0
    &&& forall|i: int| 0 <= i < name.len() ==> #[trigger] name[i] != 0x2f
    &&& name != seq![0x2eu8]
    &&& name != seq![0x2eu8, 0x2eu8]
}

/// A path ends with the name that was put behind its last slash, or that it consists of.
pub proof fn law_name_is_found(directory: Seq<u8>, name: Seq<u8>)
    requires
        is_name(name),
    ensures
        path_file_name(name) == Some(name),
        path_file_name(directory + seq![0x2fu8] + name) == Some(name),
        path_directory(name) == Seq::<u8>::empty(),
        path_directory(directory + seq![0x2fu8] + name) == directory + seq![0x2fu8],
{
    lemma_name_in_place(seq![], name);
    assert(seq![] + name =~= name);
    lemma_name_in_place(directory + seq![0x2fu8], name);
}

proof fn lemma_name_in_place(directory: Seq<u8>, name: Seq<u8>)
    requires
        is_name(name),
        directory.len() == 0 || directory.last() == SLASH,
    ensures
        path_file_name(directory + name) == Some(name),
        path_directory(directory + name) == directory,
{
    let path = directory + name;
    let start = directory.len() as int;
    assert(path.last() == name.last());
    assert(name.last() == name[name.len() - 1]);
    if name.last() == DOT && (path.len() == 1 || path[path.len() - 2] == SLASH) {
        if name.len() > 1 {
            assert(path[path.len() - 2] == name[name.len() - 2]);
        }
        assert(name =~= seq![0x2eu8]);
    }
    assert(name_end(path) == path.len());
    assert forall|i: int| start <= i < path.len() implies path[i] != SLASH by {
        assert(path[i] == name[i - start]);
    }
    if start > 0 {
        assert(path[start - 1] == directory.last());
    }
    lemma_start_unique(path, path.len() as int, start);
    assert(path.subrange(start, path.len() as int) =~= name);
    assert(path.take(start) =~= directory);
}

/// What a path ends with, where it ends with a file name, is a name.
pub proof fn law_found_is_name(path: Seq<u8>)
    requires
        path_file_name(path) is Some,
    ensures
        is_name(path_file_name(path)->0),
{
    let end = name_end(path);
    let start = name_start(path, end);
    lemma_name_end(path);
    lemma_name_bounds(path, end);
    lemma_end_not_dot(path);
    let name = path_file_name(path)->0;
    assert forall|i: int| 0 <= i < name.len() implies #[trigger] name[i] != 0x2f by {
        assert(name[i] == path[start + i]);
    }
    if name == seq![0x2eu8] {
        assert(name[0] == path[end - 1]);
    }
}

proof fn lemma_end_not_dot(path: Seq<u8>)
    ensures
        ({
            let end = name_end(path);
            end > 0 && path[end - 1] == DOT ==> end > 1 && path[end - 2] != SLASH
        }),
    decreases path.len(),
{
    lemma_name_end(path);
    let end = name_end(path);
    if path.len() > 0 {
        assert(path.last() == path[path.len() - 1]);
        let shorter = path.drop_last();
        lemma_name_end(shorter);
        lemma_end_not_dot(shorter);
        if end < path.len() {
            assert(end == name_end(shorter));
            assert(end > 0 ==> shorter[end - 1] == path[end - 1]);
            assert(end > 1 ==> shorter[end - 2] == path[end - 2]);
        }
    }
}

/// Slashes and `.` at the end of a path do not change the file that it names, and a path that goes
/// up names none. Neither do the empty path, the root and `.`.
pub proof fn law_end_of_path(path: Seq<u8>)
    ensures
        path_file_name(path + seq![0x2fu8]) == path_file_name(path),
        path_file_name(path + seq![0x2fu8, 0x2eu8]) == path_file_name(path),
        path_file_name(path + seq![0x2fu8, 0x2eu8, 0x2eu8]) is None,
        path_file_name(seq![0x2eu8, 0x2eu8]) is None,
        path_file_name(seq![0x2eu8]) is None,
        path_file_name(seq![]) is None,
{
    let slashed = path + seq![0x2fu8];
    let dotted = path + seq![0x2fu8, 0x2eu8];
    lemma_name_end(path);
    assert(slashed.drop_last() =~= path);
    assert(name_end(slashed) == name_end(path));
    lemma_same_start(path, slashed, name_end(path));
    assert(dotted.drop_last() =~= slashed);
    assert(dotted[dotted.len() - 2] == SLASH);
    assert(name_end(dotted) == name_end(path));
    lemma_same_start(path, dotted, name_end(path));
    let end = name_end(path);
    let start = name_start(path, end);
    lemma_name_bounds(path, end);
    assert(slashed.subrange(start, end) =~= path.subrange(start, end));
    assert(dotted.subrange(start, end) =~= path.subrange(start, end));
    let up = path + seq![0x2fu8, 0x2eu8, 0x2eu8];
    assert(up[up.len() - 2] == DOT && up.last() == DOT);
    assert(name_end(up) == up.len());
    assert(up[up.len() - 3] == SLASH);
    lemma_start_unique(up, up.len() as int, up.len() - 2);
    assert(up.subrange(up.len() - 2, up.len() as int) =~= seq![DOT, DOT]);
    let parent = seq![0x2eu8, 0x2eu8];
    lemma_start_unique(parent, 2, 0);
    assert(parent.subrange(0, 2) =~= seq![DOT, DOT]);
    let here = seq![0x2eu8];
    assert(here.drop_last() =~= seq![]);
    assert(name_end(here.drop_last()) == 0);
    assert(name_end(here) == 0);
}

proof fn lemma_same_start(a: Seq<u8>, b: Seq<u8>, end: int)
    requires
        0 <= end <= a.len(),
        end <= b.len(),
        forall|i: int| 0 <= i < end ==> a[i] == b[i],
    ensures
        name_start(a, end) == name_start(b, end),
    decreases end,
{
    if end > 0 {
        lemma_same_start(a, b, end - 1);
    }
}

/// Replacing the extension changes what stands behind the last dot of the name; an empty extension
/// takes the dot away too.
pub proof fn law_extension_is_replaced(
    directory: Seq<u8>,
    stem: Seq<u8>,
    old: Seq<u8>,
    extension: Seq<u8>,
)
    requires
        directory.len() == 0 || directory.last() == 0x2f,
        is_name(stem + seq![0x2eu8] + old),
        stem.len() > 0,
        forall|i: int| 0 <= i < old.len() ==> #[trigger] old[i] != 0x2e,
        extension.len() > 0,
    ensures
        path_with_extension(directory + (stem + seq![0x2eu8] + old), extension) == directory + stem
            + seq![0x2eu8] + extension,
        path_with_extension(directory + (stem + seq![0x2eu8] + old), seq![]) == directory + stem,
{
    let name = stem + seq![0x2eu8] + old;
    lemma_name_in_place(directory, name);
    lemma_stem_of_extended(stem, old, name.len() as int);
    assert(file_stem(name) =~= stem);
    assert(directory + stem + (seq![0x2eu8] + extension) =~= directory + stem + seq![0x2eu8]
        + extension);
    assert(directory + stem + seq![] =~= directory + stem);
}

/// A name without a dot, but for one that opens it, gets the extension added.
pub proof fn law_extension_is_added(directory: Seq<u8>, name: Seq<u8>, extension: Seq<u8>)
    requires
        directory.len() == 0 || directory.last() == 0x2f,
        is_name(name),
        forall|i: int| 1 <= i < name.len() ==> #[trigger] name[i] != 0x2e,
        extension.len() > 0,
    ensures
        path_with_extension(directory + name, extension) == directory + name + seq![0x2eu8]
            + extension,
        path_with_extension(directory + name, seq![]) == directory + name,
{
    lemma_name_in_place(directory, name);
    lemma_stem_without_dot(name, name.len() as int);
    assert(file_stem(name) =~= name);
    assert(directory + name + (seq![0x2eu8] + extension) =~= directory + name + seq![0x2eu8]
        + extension);
    assert(directory + name + seq![] =~= directory + name);
}

proof fn lemma_stem_without_dot(name: Seq<u8>, end: int)
    requires
        0 <= end <= name.len(),
        forall|i: int| 1 <= i < name.len() ==> #[trigger] name[i] != DOT,
    ensures
        stem_len(name, end) == name.len(),
    decreases end,
{
    if end > 1 {
        lemma_stem_without_dot(name, end - 1);
    }
}

/// A path that names no file stays as it is, and slashes behind the name go with the extension.
pub proof fn law_extension_of_other_paths(path: Seq<u8>, extension: Seq<u8>)
    ensures
        path_file_name(path) is None ==> path_with_extension(path, extension) == path,
        path_file_name(path) is Some ==> path_with_extension(path + seq![0x2fu8], extension)
            == path_with_extension(path, extension),
{
    let slashed = path + seq![0x2fu8];
    let end = name_end(path);
    law_end_of_path(path);
    lemma_name_end(path);
    lemma_name_bounds(path, end);
    assert(slashed.drop_last() =~= path);
    lemma_same_start(path, slashed, end);
    let start = name_start(path, end);
    assert(slashed.take(start) =~= path.take(start));
}

} // verus!
