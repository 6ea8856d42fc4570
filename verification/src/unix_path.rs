//! Unix file paths as byte strings: extending a path by a name, and dropping its last component.

use vstd::prelude::*;

verus! {

/// The byte between two components of a path.
pub const SEPARATOR: u8 = 47;

/// The byte that alone makes up a component for "this directory".
pub const DOT: u8 = 46;

/// `dir` extended by `name`: an absolute `name` replaces `dir`, a relative one is appended behind
/// exactly one separator.
pub open spec fn joined(dir: Seq<u8>, name: Seq<u8>) -> Seq<u8> {
    if name.len() > 0 && name[0] == SEPARATOR {
        name
    } else if dir.len() == 0 || dir.last() == SEPARATOR {
        dir + name
    } else {
        dir.push(SEPARATOR) + name
    }
}

/// `path` without the separators, and the "this directory" components behind a separator, at its
/// end. A leading byte always stays, so that the root stays the root.
pub open spec fn trimmed(path: Seq<u8>) -> Seq<u8>
    decreases path.len(),
{
    if path.len() >= 2 && (path.last() == SEPARATOR || (path.last() == DOT && path[path.len() - 2]
        == SEPARATOR)) {
        trimmed(path.drop_last())
    } else {
        path
    }
}

/// Where the last component of `path` begins: just behind the last separator.
pub open spec fn name_start(path: Seq<u8>) -> nat
    decreases path.len(),
{
    if path.len() == 0 || path.last() == SEPARATOR {
        path.len()
    } else {
        name_start(path.drop_last())
    }
}

/// The path without its last component. The root and the empty path have none to drop.
pub open spec fn parent(path: Seq<u8>) -> Option<Seq<u8>> {
    let body = trimmed(path);
    if body.len() == 0 || body =~= seq![SEPARATOR] {
        None
    } else {
        Some(trimmed(body.take(name_start(body) as int)))
    }
}

/// What `trimmed` leaves is a beginning of the path.
proof fn lemma_trimmed_is_prefix(path: Seq<u8>)
    ensures
        trimmed(path).len() <= path.len(),
        trimmed(path) =~= path.take(trimmed(path).len() as int),
    decreases path.len(),
{
    if path.len() >= 2 && (path.last() == SEPARATOR || (path.last() == DOT && path[path.len() - 2]
        == SEPARATOR)) {
        lemma_trimmed_is_prefix(path.drop_last());
    }
}

proof fn lemma_name_start_in_range(path: Seq<u8>)
    ensures
        name_start(path) <= path.len(),
    decreases path.len(),
{
    if path.len() != 0 && path.last() != SEPARATOR {
        lemma_name_start_in_range(path.drop_last());
    }
}

/// A name without separators behind a directory is the last component.
proof fn lemma_name_start_of_joined(dir: Seq<u8>, name: Seq<u8>)
    requires
        dir.len() == 0 || dir.last() == SEPARATOR,
        forall|i: int| 0 <= i < name.len() ==> name[i] != SEPARATOR,
    ensures
        name_start(dir + name) == dir.len(),
    decreases name.len(),
{
    if name.len() == 0 {
        assert(dir + name =~= dir);
    } else {
        assert((dir + name).drop_last() =~= dir + name.drop_last());
        lemma_name_start_of_joined(dir, name.drop_last());
    }
}

/// The path without its last component is a beginning of the path.
pub proof fn law_parent_is_prefix(path: Seq<u8>)
    ensures
        parent(path) matches Some(shorter) ==> shorter.len() <= path.len() && shorter
            =~= path.take(shorter.len() as int),
{
    let body = trimmed(path);
    lemma_trimmed_is_prefix(path);
    lemma_name_start_in_range(body);
    lemma_trimmed_is_prefix(body.take(name_start(body) as int));
}

/// Dropping the last component undoes an extension by a plain file name, up to what ends the
/// directory.
pub proof fn law_parent_undoes_join(dir: Seq<u8>, name: Seq<u8>)
    requires
        name.len() > 0,
        name != seq![DOT],
        forall|i: int| 0 <= i < name.len() ==> name[i] != SEPARATOR,
    ensures
        parent(joined(dir, name)) == Some(trimmed(dir)),
{
    let path = joined(dir, name);
    let base = if dir.len() == 0 || dir.last() == SEPARATOR {
        dir
    } else {
        dir.push(SEPARATOR)
    };
    assert(path =~= base + name);
    assert(path.last() == name.last());
    if path.len() >= 2 && path.last() == DOT && path[path.len() - 2] == SEPARATOR {
        assert(name.len() == 1 ==> name =~= seq![DOT]);
        assert(name.len() >= 2 ==> path[path.len() - 2] == name[name.len() - 2]);
    }
    assert(trimmed(path) == path);
    lemma_name_start_of_joined(base, name);
    assert(path.take(base.len() as int) =~= base);
    if dir.len() > 0 && dir.last() != SEPARATOR {
        assert(base.drop_last() =~= dir);
    }
}

/// Extending by an absolute name gives that name. Extending by any other keeps the directory at the
/// beginning and the name at the end, with one separator in between where the directory is not
/// empty and does not end in one, and nothing otherwise.
pub proof fn law_join_keeps_both_parts(dir: Seq<u8>, name: Seq<u8>)
    ensures
        ({
            let path = joined(dir, name);
            let absolute = name.len() > 0 && name[0] == 47;
            let between: nat = if dir.len() > 0 && dir[dir.len() - 1] != 47 {
                1
            } else {
                0
            };
            &&& absolute ==> path == name
            &&& !absolute ==> {
                &&& path.len() == dir.len() + between + name.len()
                &&& forall|i: int| 0 <= i < dir.len() ==> path[i] == dir[i]
                &&& between == 1 ==> path[dir.len() as int] == 47
                &&& forall|i: int|
                    0 <= i < name.len() ==> path[dir.len() + between + i] == #[trigger] name[i]
            }
        }),
{
}

/// Separators, and "this directory" behind a separator, count for nothing at the end of a path.
pub proof fn law_endings_do_not_count(path: Seq<u8>)
    requires
        path.len() > 0,
    ensures
        parent(path.push(47)) == parent(path),
        parent(path.push(47).push(46)) == parent(path),
        trimmed(path.push(47)) == trimmed(path),
        trimmed(path.push(47).push(46)) == trimmed(path),
{
    assert(path.push(47).drop_last() =~= path);
    assert(path.push(47).push(46).drop_last() =~= path.push(47));
}

/// A path that ends in a plain component, or is a single byte, is trimmed already.
pub proof fn law_plain_endings_stay(path: Seq<u8>)
    requires
        path.len() >= 2 ==> path[path.len() - 1] != 47 && !(path[path.len() - 1] == 46
            && path[path.len() - 2] == 47),
    ensures
        trimmed(path) == path,
{
}

/// Whether a byte of a path, but the first, is a separator or "this directory" by itself.
pub open spec fn is_bare_at(path: Seq<u8>, i: int) -> bool {
    path[i] == 47 || (path[i] == 46 && path[i - 1] == 47 && (i + 1 == path.len() || path[i + 1]
        == 47))
}

/// Whether a path names nothing but the root, or nothing at all.
pub open spec fn is_bare(path: Seq<u8>) -> bool {
    path.len() > 0 ==> path[0] == 47 && forall|i: int|
        0 < i < path.len() ==> #[trigger] is_bare_at(path, i)
}

/// Exactly the empty path and the ways to write the root have no component to drop.
pub proof fn law_only_bare_paths_have_no_parent(path: Seq<u8>)
    ensures
        parent(path) is None <==> is_bare(path),
    decreases path.len(),
{
    let last = path.len() - 1;
    if path.len() >= 2 && (path[last] == 47 || (path[last] == 46 && path[last - 1] == 47)) {
        let shorter = path.drop_last();
        law_only_bare_paths_have_no_parent(shorter);
        assert(parent(path) == parent(shorter));
        if is_bare(path) {
            assert forall|i: int| 0 < i < shorter.len() implies #[trigger] is_bare_at(
                shorter,
                i,
            ) by {
                assert(is_bare_at(path, i));
            }
        }
        if is_bare(shorter) {
            assert forall|i: int| 0 < i < path.len() implies #[trigger] is_bare_at(path, i) by {
                if i < last {
                    assert(is_bare_at(shorter, i));
                }
            }
        }
    } else {
        assert(trimmed(path) == path);
        if path.len() >= 2 {
            assert(!is_bare_at(path, last));
        } else if path.len() == 1 {
            assert(path[0] == 47 ==> path =~= seq![47u8]);
        }
    }
}

/// Copies a byte slice.
pub(crate) fn to_bytes(bytes: &[u8]) -> (copy: Vec<u8>)
    ensures
        copy@ == bytes@,
{
    vstd::slice::slice_to_vec(bytes)
}

/// Extends `dir` by `name`.
pub fn join(dir: &[u8], name: &[u8]) -> (path: Vec<u8>)
    ensures
        path@ == joined(dir@, name@),
{
    if name.len() > 0 && name[0] == SEPARATOR {
        return to_bytes(name);
    }
    let mut path: Vec<u8> = to_bytes(dir);
    if dir.len() > 0 && dir[dir.len() - 1] != SEPARATOR {
        path.push(SEPARATOR);
    }
    let mut tail: Vec<u8> = to_bytes(name);
    path.append(&mut tail);
    path
}

/// The length of what `trimmed` leaves of the first `len` bytes of `path`.
fn trimmed_len(path: &Vec<u8>, len: usize) -> (kept: usize)
    requires
        len <= path.len(),
    ensures
        kept == trimmed(path@.take(len as int)).len(),
        kept <= len,
        trimmed(path@.take(len as int)) == path@.take(kept as int),
{
    let mut kept: usize = len;
    while kept >= 2 && (path[kept - 1] == SEPARATOR || (path[kept - 1] == DOT && path[kept - 2]
        == SEPARATOR))
        invariant
            kept <= len <= path.len(),
            trimmed(path@.take(len as int)) == trimmed(path@.take(kept as int)),
        decreases kept,
    {
        assert(path@.take(kept as int).drop_last() =~= path@.take(kept - 1));
        kept = kept - 1;
    }
    kept
}

/// Drops the last component of `path` and says whether there was one to drop.
pub fn pop(path: &mut Vec<u8>) -> (dropped: bool)
    ensures
        dropped == parent(old(path)@) is Some,
        final(path)@ == (match parent(old(path)@) {
            Some(shorter) => shorter,
            None => old(path)@,
        }),
{
    let ghost whole = path@;
    assert(whole.take(path.len() as int) =~= whole);
    let body: usize = trimmed_len(path, path.len());
    if body == 0 || (body == 1 && path[0] == SEPARATOR) {
        assert(body == 1 ==> whole.take(1) =~= seq![SEPARATOR]);
        return false;
    }
    assert(whole.take(body as int)[0] == whole[0]);
    let mut start: usize = body;
    while start > 0 && path[start - 1] != SEPARATOR
        invariant
            start <= body <= path.len(),
            path@ == whole,
            name_start(whole.take(body as int)) == name_start(whole.take(start as int)),
        decreases start,
    {
        assert(whole.take(start as int).drop_last() =~= whole.take(start - 1));
        start = start - 1;
    }
    assert(whole.take(body as int).take(start as int) =~= whole.take(start as int));
    let kept: usize = trimmed_len(path, start);
    path.truncate(kept);
    assert(path@ =~= whole.take(kept as int));
    true
}

} // verus!
