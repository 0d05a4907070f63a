//! Paths and lists of paths as the operating system holds them: sequences of
//! bytes, with `/` between the components of a path and `:` between the
//! paths of a list.

use vstd::prelude::*;
use vstd::string::StringSliceAdditionalSpecFns;

verus! {

/// The byte that separates the components of a path.
pub open spec fn separator() -> u8 {
    47u8
}

/// The byte that separates the paths of a list.
pub open spec fn list_separator() -> u8 {
    58u8
}

/// `base` with the relative path `name` appended: a separator is put between
/// the two unless `base` is empty or ends in one already.
pub open spec fn joined_path(base: Seq<u8>, name: Seq<u8>) -> Seq<u8> {
    if base.len() > 0 && base.last() != separator() {
        base + seq![separator()] + name
    } else {
        base + name
    }
}

/// The paths of the list `list`: what stands between its list separators,
/// empty paths included. A list without a separator is one path.
pub open spec fn split_list(list: Seq<u8>) -> Seq<Seq<u8>>
    decreases list.len(),
{
    if list.len() == 0 {
        seq![Seq::<u8>::empty()]
    } else {
        let front = split_list(list.drop_last());
        if list.last() == list_separator() {
            front.push(Seq::<u8>::empty())
        } else {
            front.drop_last().push(front.last().push(list.last()))
        }
    }
}

/// The given paths, first to last, with a list separator between neighbours.
pub open spec fn concat_list(paths: Seq<Seq<u8>>) -> Seq<u8>
    decreases paths.len(),
{
    if paths.len() == 0 {
        Seq::<u8>::empty()
    } else if paths.len() == 1 {
        paths[0]
    } else {
        concat_list(paths.drop_last()) + seq![list_separator()] + paths.last()
    }
}

/// Whether every path in `paths` can stand in a list, that is, holds no list
/// separator.
pub open spec fn listable(paths: Seq<Seq<u8>>) -> bool {
    forall|i: int| 0 <= i < paths.len() ==> !(#[trigger] paths[i]).contains(list_separator())
}

/// The list made of `paths`, if every one of them can stand in a list.
pub open spec fn joined_list(paths: Seq<Seq<u8>>) -> Option<Seq<u8>> {
    if listable(paths) {
        Some(concat_list(paths))
    } else {
        None
    }
}

/// The bytes of a value that may be missing.
pub open spec fn optional(value: Option<Vec<u8>>) -> Option<Seq<u8>> {
    match value {
        Some(bytes) => Some(bytes@),
        None => None,
    }
}

/// The value of a variable that is set to something: an empty value counts
/// as not set.
pub open spec fn nonempty(value: Option<Seq<u8>>) -> Option<Seq<u8>> {
    match value {
        Some(bytes) => if bytes.len() > 0 {
            Some(bytes)
        } else {
            None
        },
        None => None,
    }
}

/// The paths that a variable lists: none when it is set to nothing, and no
/// answer when it is not set.
pub open spec fn listed_paths(value: Option<Seq<u8>>) -> Option<Seq<Seq<u8>>> {
    match value {
        Some(bytes) => if bytes.len() == 0 {
            Some(Seq::<Seq<u8>>::empty())
        } else {
            Some(split_list(bytes))
        },
        None => None,
    }
}

/// Seen as deeply as can be, a byte string is still the sequence of its bytes.
pub proof fn lemma_bytes_view(bytes: Vec<u8>)
    ensures
        #[trigger] bytes.deep_view() == bytes@,
{
    assert(bytes.deep_view() =~= bytes@);
}

/// The bytes of `text`.
pub fn bytes_of(text: &str) -> (bytes: Vec<u8>)
    ensures
        bytes@ == text.spec_bytes(),
{
    text.as_bytes_vec()
}

/// A copy of `bytes`.
pub fn copy_of(bytes: &Vec<u8>) -> (copy: Vec<u8>)
    ensures
        copy@ == bytes@,
{
    let mut copy: Vec<u8> = Vec::new();
    extend(&mut copy, bytes);
    copy
}

/// Appends `more` to `bytes`.
pub fn extend(bytes: &mut Vec<u8>, more: &Vec<u8>)
    ensures
        final(bytes)@ == old(bytes)@ + more@,
{
    let ghost before = bytes@;
    let mut i: usize = 0;
    while i < more.len()
        invariant
            i <= more.len(),
            bytes@ == before + more@.subrange(0, i as int),
        decreases more.len() - i,
    {
        bytes.push(more[i]);
        i += 1;
        assert(bytes@ =~= before + more@.subrange(0, i as int));
    }
    assert(bytes@ =~= before + more@);
}

/// Whether two byte strings are the same.
pub fn same_bytes(a: &Vec<u8>, b: &Vec<u8>) -> (same: bool)
    ensures
        same == (a@ == b@),
{
    if a.len() != b.len() {
        return false;
    }
    let mut i: usize = 0;
    while i < a.len()
        invariant
            i <= a.len(),
            a.len() == b.len(),
            a@.subrange(0, i as int) == b@.subrange(0, i as int),
        decreases a.len() - i,
    {
        if a[i] != b[i] {
            return false;
        }
        i += 1;
        assert(a@.subrange(0, i as int) =~= a@.subrange(0, i - 1).push(a@[i - 1]));
        assert(b@.subrange(0, i as int) =~= b@.subrange(0, i - 1).push(b@[i - 1]));
    }
    assert(a@ =~= a@.subrange(0, a.len() as int));
    assert(b@ =~= b@.subrange(0, b.len() as int));
    true
}

/// Whether `bytes` holds `byte`.
pub fn holds(bytes: &Vec<u8>, byte: u8) -> (found: bool)
    ensures
        found == bytes@.contains(byte),
{
    let mut i: usize = 0;
    while i < bytes.len()
        invariant
            i <= bytes.len(),
            forall|j: int| 0 <= j < i ==> bytes@[j] != byte,
        decreases bytes.len() - i,
    {
        if bytes[i] == byte {
            return true;
        }
        i += 1;
    }
    false
}

/// Appends the relative path `name` to the path `base`.
pub fn join_path(base: &Vec<u8>, name: &str) -> (path: Vec<u8>)
    ensures
        path@ == joined_path(base@, name.spec_bytes()),
{
    let mut path = copy_of(base);
    if base.len() > 0 && base[base.len() - 1] != 47u8 {
        path.push(47u8);
    }
    let name = bytes_of(name);
    extend(&mut path, &name);
    path
}

/// The value of a variable that is set to something.
pub fn nonempty_var_os(value: &Option<Vec<u8>>) -> (set: Option<Vec<u8>>)
    ensures
        optional(set) == nonempty(optional(*value)),
{
    match value {
        Some(bytes) => {
            if bytes.len() > 0 {
                Some(copy_of(bytes))
            } else {
                None
            }
        },
        None => None,
    }
}

/// Splits a list of paths at its list separators.
pub fn split_paths(list: &Vec<u8>) -> (paths: Vec<Vec<u8>>)
    ensures
        paths.deep_view() == split_list(list@),
{
    let mut paths: Vec<Vec<u8>> = Vec::new();
    let mut current: Vec<u8> = Vec::new();
    let mut i: usize = 0;
    assert(list@.subrange(0, 0) =~= Seq::<u8>::empty());
    assert(paths.deep_view().push(current@) =~= seq![Seq::<u8>::empty()]);
    while i < list.len()
        invariant
            i <= list.len(),
            split_list(list@.subrange(0, i as int)) == paths.deep_view().push(current@),
        decreases list.len() - i,
    {
        let ghost front = list@.subrange(0, i as int);
        let ghost grown = list@.subrange(0, i + 1);
        let ghost before = paths.deep_view();
        let ghost tail = current@;
        assert(grown.drop_last() =~= front);
        assert(grown.last() == list@[i as int]);
        if list[i] == 58u8 {
            proof {
                lemma_bytes_view(current);
            }
            paths.push(current);
            current = Vec::new();
            assert(paths.deep_view() =~= before.push(tail));
        } else {
            current.push(list[i]);
            assert(before.push(tail).drop_last() =~= before);
        }
        i += 1;
    }
    assert(list@.subrange(0, i as int) =~= list@);
    let ghost before = paths.deep_view();
    let ghost tail = current@;
    proof {
        lemma_bytes_view(current);
    }
    paths.push(current);
    assert(paths.deep_view() =~= before.push(tail));
    paths
}

/// The paths that a variable lists.
pub fn env_path(value: &Option<Vec<u8>>) -> (paths: Option<Vec<Vec<u8>>>)
    ensures
        paths.deep_view() == listed_paths(optional(*value)),
{
    match value {
        Some(bytes) => {
            if bytes.len() == 0 {
                let none: Vec<Vec<u8>> = Vec::new();
                assert(none.deep_view() =~= Seq::<Seq<u8>>::empty());
                Some(none)
            } else {
                Some(split_paths(bytes))
            }
        },
        None => None,
    }
}

/// Joins paths into one list. There is no such list when one of the paths
/// holds a list separator.
pub fn join_paths(paths: &Vec<Vec<u8>>) -> (list: Option<Vec<u8>>)
    ensures
        optional(list) == joined_list(paths.deep_view()),
{
    let mut joined: Vec<u8> = Vec::new();
    let mut i: usize = 0;
    assert(paths.deep_view().subrange(0, 0) =~= Seq::<Seq<u8>>::empty());
    while i < paths.len()
        invariant
            i <= paths.len(),
            listable(paths.deep_view().subrange(0, i as int)),
            joined@ == concat_list(paths.deep_view().subrange(0, i as int)),
        decreases paths.len() - i,
    {
        let ghost all = paths.deep_view();
        let ghost front = all.subrange(0, i as int);
        let ghost grown = all.subrange(0, i + 1);
        proof {
            lemma_bytes_view(paths[i as int]);
        }
        assert(grown.drop_last() =~= front);
        assert(grown.last() == paths[i as int]@);
        if holds(&paths[i], 58u8) {
            assert(all[i as int].contains(list_separator()));
            return None;
        }
        if i > 0 {
            joined.push(58u8);
        }
        extend(&mut joined, &paths[i]);
        i += 1;
        assert(joined@ =~= concat_list(grown)) by {
            if grown.len() == 1 {
                assert(front.len() == 0);
                assert(grown[0] == grown.last());
            }
        }
        assert forall|j: int| 0 <= j < grown.len() implies !(#[trigger] grown[j]).contains(
            list_separator(),
        ) by {
            if j < front.len() {
                assert(grown[j] == front[j]);
            }
        }
    }
    assert(paths.deep_view().subrange(0, i as int) =~= paths.deep_view());
    Some(joined)
}

/// Appends one path to a list of paths.
pub fn push_path(paths: &mut Vec<Vec<u8>>, path: Vec<u8>)
    ensures
        final(paths).deep_view() == old(paths).deep_view().push(path@),
{
    let ghost before = paths.deep_view();
    proof {
        lemma_bytes_view(path);
    }
    paths.push(path);
    assert(paths.deep_view() =~= before.push(path@));
}

/// Appends the paths of `more` to a list of paths, in their order.
pub fn append_paths(paths: &mut Vec<Vec<u8>>, more: Vec<Vec<u8>>)
    ensures
        final(paths).deep_view() == old(paths).deep_view() + more.deep_view(),
{
    let mut more = more;
    let ghost before = paths.deep_view();
    let ghost added = more.deep_view();
    paths.append(&mut more);
    assert(paths.deep_view() =~= before + added);
}

/// Splitting a list and joining the parts again gives the list back.
pub proof fn law_split_then_join(list: Seq<u8>)
    ensures
        joined_list(split_list(list)) == Some(list),
        split_list(list).len() >= 1,
    decreases list.len(),
{
    if list.len() == 0 {
        assert(concat_list(seq![Seq::<u8>::empty()]) =~= Seq::<u8>::empty());
    } else {
        let front = split_list(list.drop_last());
        law_split_then_join(list.drop_last());
        let parts = split_list(list);
        if list.last() == list_separator() {
            assert(parts.drop_last() =~= front);
            assert(concat_list(parts) =~= list.drop_last() + seq![list_separator()]);
            assert(list =~= list.drop_last() + seq![list_separator()]);
            assert forall|i: int| 0 <= i < parts.len() implies !(#[trigger] parts[i]).contains(
                list_separator(),
            ) by {
                if i < front.len() {
                    assert(parts[i] == front[i]);
                }
            }
        } else {
            let grown = front.last().push(list.last());
            assert(parts.last() == grown);
            assert(!grown.contains(list_separator())) by {
                assert(!front[front.len() - 1].contains(list_separator()));
                if grown.contains(list_separator()) {
                    let k = choose|k: int| 0 <= k < grown.len() && grown[k] == list_separator();
                    if k < front.last().len() {
                        assert(front.last()[k] == list_separator());
                    }
                }
            }
            assert forall|i: int| 0 <= i < parts.len() implies !(#[trigger] parts[i]).contains(
                list_separator(),
            ) by {
                if i < front.len() - 1 {
                    assert(parts[i] == front[i]);
                }
            }
            if front.len() == 1 {
                assert(front.last() == list.drop_last());
                assert(concat_list(parts) =~= list);
            } else {
                assert(parts.drop_last() =~= front.drop_last());
                assert(concat_list(front) == concat_list(front.drop_last()) + seq![
                    list_separator(),
                ] + front.last());
                assert(concat_list(parts) =~= concat_list(front).push(list.last()));
                assert(list =~= list.drop_last().push(list.last()));
            }
        }
    }
}

} // verus!
