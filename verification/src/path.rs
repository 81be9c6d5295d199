//! Unix paths as byte strings: resolution, parents, and containment by whole components.

use vstd::prelude::*;
use vstd::slice::slice_subrange;

verus! {

/// The byte that separates components.
pub const SEPARATOR: u8 = 47;

/// The byte that, alone in a component, names the directory itself.
pub const DOT: u8 = 46;

/// A path that starts at the root.
pub open spec fn is_absolute(path: Seq<u8>) -> bool {
    path.len() > 0 && path[0] == SEPARATOR
}

/// A relative path whose first component is the current directory.
pub open spec fn has_leading_dot(path: Seq<u8>) -> bool {
    path.len() > 0 && path[0] == DOT && (path.len() == 1 || path[1] == SEPARATOR)
}

/// The position of the last separator, or -1.
pub open spec fn last_separator(path: Seq<u8>) -> int
    decreases path.len(),
{
    if path.len() == 0 {
        -1
    } else if path.last() == SEPARATOR {
        path.len() - 1
    } else {
        last_separator(path.drop_last())
    }
}

/// A piece between separators that names something other than the directory it stands in.
pub open spec fn is_name(piece: Seq<u8>) -> bool {
    piece.len() > 0 && piece != seq![DOT]
}

/// The names along `path`: its pieces between separators without the empty ones and the dots.
pub open spec fn names(path: Seq<u8>) -> Seq<Seq<u8>>
    decreases path.len(),
    via names_decreases
{
    let k = last_separator(path);
    let piece = path.skip(k + 1);
    let before = if k < 0 {
        Seq::empty()
    } else {
        names(path.take(k))
    };
    if is_name(piece) {
        before.push(piece)
    } else {
        before
    }
}

#[via_fn]
proof fn names_decreases(path: Seq<u8>) {
    lemma_last_separator(path);
}

/// The component that a path starts with before its names: the root, the current directory, or
/// none.
pub open spec fn anchor(path: Seq<u8>) -> Seq<Seq<u8>> {
    if is_absolute(path) {
        seq![seq![SEPARATOR]]
    } else if has_leading_dot(path) {
        seq![seq![DOT]]
    } else {
        Seq::empty()
    }
}

/// The components of `path`. Repeated and trailing separators make no difference, nor do dots
/// other than one that the path starts with.
pub open spec fn components(path: Seq<u8>) -> Seq<Seq<u8>> {
    anchor(path) + names(path)
}

/// `path` is `base` or lies below it, compared by whole components.
pub open spec fn lies_in(path: Seq<u8>, base: Seq<u8>) -> bool {
    components(base).is_prefix_of(components(path))
}

/// `path` as seen from the directory `base`: itself when absolute, else appended to `base`.
pub open spec fn resolved(base: Seq<u8>, path: Seq<u8>) -> Seq<u8> {
    if is_absolute(path) {
        path
    } else if base.len() == 0 || base.last() == SEPARATOR {
        base + path
    } else {
        base.push(SEPARATOR) + path
    }
}

/// `path` without trailing separators and trailing dots. A lone root stays.
pub open spec fn trimmed(path: Seq<u8>) -> Seq<u8>
    decreases path.len(),
{
    if path.len() > 1 && (path.last() == SEPARATOR || (path.last() == DOT && path[path.len() - 2]
        == SEPARATOR)) {
        trimmed(path.drop_last())
    } else {
        path
    }
}

/// The path of the directory that holds what `path` names: none for the root and for the empty
/// path.
pub open spec fn parent_of(path: Seq<u8>) -> Option<Seq<u8>> {
    let whole = trimmed(path);
    if whole.len() == 0 || whole == seq![SEPARATOR] {
        None
    } else {
        Some(trimmed(whole.take(last_separator(whole) + 1)))
    }
}

proof fn lemma_last_separator(path: Seq<u8>)
    ensures
        -1 <= last_separator(path) < path.len(),
        last_separator(path) >= 0 ==> path[last_separator(path)] == SEPARATOR,
        forall|i: int| last_separator(path) < i < path.len() ==> path[i] != SEPARATOR,
    decreases path.len(),
{
    if path.len() > 0 && path.last() != SEPARATOR {
        let rest = path.drop_last();
        lemma_last_separator(rest);
        assert forall|i: int| last_separator(path) < i < path.len() implies path[i]
            != SEPARATOR by {
            if i < rest.len() {
                assert(rest[i] == path[i]);
            }
        }
    }
}

proof fn lemma_last_separator_is(path: Seq<u8>, k: int)
    requires
        -1 <= k < path.len(),
        k >= 0 ==> path[k] == SEPARATOR,
        forall|i: int| k < i < path.len() ==> path[i] != SEPARATOR,
    ensures
        last_separator(path) == k,
{
    lemma_last_separator(path);
}

/// Tells whether two byte strings are the same.
pub fn same_bytes(a: &[u8], b: &[u8]) -> (same: bool)
    ensures
        same == (a@ == b@),
{
    let n: usize = a.len();
    if n != b.len() {
        return false;
    }
    let mut i: usize = 0;
    while i < n
        invariant
            i <= n,
            n == a@.len(),
            n == b@.len(),
            forall|j: int| 0 <= j < i ==> a@[j] == b@[j],
        decreases n - i,
    {
        if a[i] != b[i] {
            return false;
        }
        i = i + 1;
    }
    assert(a@ =~= b@);
    true
}

/// Tells whether `path` starts at the root.
pub fn path_is_absolute(path: &[u8]) -> (absolute: bool)
    ensures
        absolute == is_absolute(path@),
        absolute == (path@.len() > 0 && path@[0] == 47),
{
    path.len() > 0 && path[0] == SEPARATOR
}

/// The byte strings that a vector holds.
pub open spec fn byte_strings(pieces: Seq<Vec<u8>>) -> Seq<Seq<u8>> {
    pieces.map_values(|piece: Vec<u8>| piece@)
}

/// Adds `piece` to `found` when it is a name.
fn push_name(found: &mut Vec<Vec<u8>>, piece: &[u8])
    ensures
        byte_strings(final(found)@) == (if is_name(piece@) {
            byte_strings(old(found)@).push(piece@)
        } else {
            byte_strings(old(found)@)
        }),
{
    let is_dot = piece.len() == 1 && piece[0] == DOT;
    assert(is_dot == (piece@ =~= seq![DOT]));
    if piece.len() > 0 && !is_dot {
        found.push(vstd::slice::slice_to_vec(piece));
        assert(byte_strings(found@) =~= byte_strings(old(found)@).push(piece@));
    }
}

/// Splits `path` into its components.
pub fn split_components(path: &[u8]) -> (found: Vec<Vec<u8>>)
    ensures
        byte_strings(found@) == components(path@),
        found@.len() == components(path@).len(),
        forall|i: int| 0 <= i < found@.len() ==> (#[trigger] found@[i])@ == components(path@)[i],
{
    let mut found: Vec<Vec<u8>> = Vec::new();
    let n: usize = path.len();
    if path_is_absolute(path) {
        found.push(vec![SEPARATOR]);
        assert(found@[0]@ =~= seq![SEPARATOR]);
    } else if n > 0 && path[0] == DOT && (n == 1 || path[1] == SEPARATOR) {
        found.push(vec![DOT]);
        assert(found@[0]@ =~= seq![DOT]);
    }
    assert(byte_strings(found@) =~= anchor(path@));
    let mut start: usize = 0;
    let mut i: usize = 0;
    assert(anchor(path@) =~= anchor(path@) + Seq::<Seq<u8>>::empty());
    while i < n
        invariant
            n == path@.len(),
            start <= i <= n,
            start > 0 ==> path@[start - 1] == SEPARATOR,
            forall|j: int| start <= j < i ==> path@[j] != SEPARATOR,
            byte_strings(found@) == anchor(path@) + (if start == 0 {
                Seq::empty()
            } else {
                names(path@.take(start - 1))
            }),
        decreases n - i,
    {
        if path[i] == SEPARATOR {
            let ghost before = path@.take(i as int);
            proof {
                lemma_last_separator_is(before, start - 1);
                assert(before.skip(start as int) =~= path@.subrange(start as int, i as int));
                if start > 0 {
                    assert(before.take(start - 1) =~= path@.take(start - 1));
                }
            }
            push_name(&mut found, slice_subrange(path, start, i));
            assert(byte_strings(found@) =~= anchor(path@) + names(before));
            start = i + 1;
        }
        i = i + 1;
    }
    proof {
        lemma_last_separator_is(path@, start - 1);
        assert(path@.skip(start as int) =~= path@.subrange(start as int, n as int));
    }
    push_name(&mut found, slice_subrange(path, start, n));
    assert(byte_strings(found@) =~= components(path@));
    assert forall|i: int| 0 <= i < found@.len() implies (#[trigger] found@[i])@ == components(
        path@,
    )[i] by {
        assert(byte_strings(found@)[i] == found@[i]@);
    }
    found
}

/// The last component of `path`, if it has any.
pub fn last_component(path: &[u8]) -> (last: Option<Vec<u8>>)
    ensures
        match last {
            Some(name) => components(path@).len() > 0 && name@ == components(path@).last(),
            None => components(path@).len() == 0,
        },
{
    let mut found = split_components(path);
    assert(byte_strings(found@).len() == found@.len());
    assert(found@.len() > 0 ==> byte_strings(found@).last() == found@.last()@);
    found.pop()
}

/// Tells whether `path` is `base` or lies below it, by whole components.
pub fn starts_with(path: &[u8], base: &[u8]) -> (inside: bool)
    ensures
        inside == lies_in(path@, base@),
        inside <==> components(path@).len() >= components(base@).len() && (forall|i: int|
            0 <= i < components(base@).len() ==> #[trigger] components(path@)[i] == components(
                base@,
            )[i]),
{
    let inner = split_components(path);
    let outer = split_components(base);
    let n: usize = outer.len();
    if n > inner.len() {
        return false;
    }
    let mut i: usize = 0;
    while i < n
        invariant
            i <= n,
            n == outer@.len(),
            n <= inner@.len(),
            byte_strings(inner@) == components(path@),
            byte_strings(outer@) == components(base@),
            forall|j: int| 0 <= j < i ==> components(path@)[j] == components(base@)[j],
        decreases n - i,
    {
        assert(components(path@)[i as int] == inner@[i as int]@);
        assert(components(base@)[i as int] == outer@[i as int]@);
        if !same_bytes(inner[i].as_slice(), outer[i].as_slice()) {
            assert(components(path@).subrange(0, n as int)[i as int] != components(
                base@,
            )[i as int]);
            assert(components(path@)[i as int] != components(base@)[i as int]);
            return false;
        }
        i = i + 1;
    }
    assert(components(base@) =~= components(path@).subrange(0, n as int));
    true
}

/// Resolves `path` against the directory `base`.
pub fn resolve(base: &[u8], path: &[u8]) -> (whole: Vec<u8>)
    ensures
        whole@ == resolved(base@, path@),
        path@.len() > 0 && path@[0] == 47 ==> whole@ == path@,
        !(path@.len() > 0 && path@[0] == 47) ==> {
            &&& base@.len() == 0 || base@.last() == 47 ==> whole@ == base@ + path@
            &&& base@.len() > 0 && base@.last() != 47 ==> whole@ == base@ + seq![47u8] + path@
        },
{
    if path_is_absolute(path) {
        return vstd::slice::slice_to_vec(path);
    }
    let mut whole = vstd::slice::slice_to_vec(base);
    let n: usize = base.len();
    if n > 0 && base[n - 1] != SEPARATOR {
        whole.push(SEPARATOR);
    }
    whole.extend_from_slice(path);
    assert(whole@ =~= resolved(base@, path@));
    assert(base@.len() > 0 && base@.last() != 47 ==> whole@ =~= base@ + seq![47u8] + path@);
    whole
}

/// The length of `path` without trailing separators and trailing dots.
fn trimmed_len(path: &[u8]) -> (n: usize)
    ensures
        n <= path@.len(),
        path@.take(n as int) == trimmed(path@),
{
    let mut n: usize = path.len();
    assert(path@.take(n as int) =~= path@);
    while n > 1 && (path[n - 1] == SEPARATOR || (path[n - 1] == DOT && path[n - 2] == SEPARATOR))
        invariant
            n <= path@.len(),
            trimmed(path@.take(n as int)) == trimmed(path@),
        decreases n,
    {
        assert(path@.take(n as int).drop_last() =~= path@.take(n - 1));
        n = n - 1;
    }
    n
}

/// The directory that holds what `path` names.
pub fn parent(path: &[u8]) -> (dir: Option<Vec<u8>>)
    ensures
        match dir {
            Some(dir) => parent_of(path@) == Some(dir@),
            None => parent_of(path@) is None,
        },
        dir is None <==> components(path@).len() == 0 || components(path@) == seq![seq![47u8]],
        dir matches Some(found) ==> {
            &&& components(found@) == components(path@).drop_last()
            &&& found@.len() <= path@.len()
            &&& found@ == path@.take(found@.len() as int)
            &&& found@.len() > 1 ==> found@.last() != 47 && !(found@.last() == 46 && found@[
            found@.len() - 2] == 47)
        },
{
    proof {
        law_parent_drops_last_component(path@);
        law_parent_is_what_stands_before(path@);
    }
    let whole: usize = trimmed_len(path);
    let ghost kept = path@.take(whole as int);
    proof {
        if kept == seq![SEPARATOR] {
            assert(kept.len() == 1 && kept[0] == SEPARATOR);
        } else if whole == 1 && path@[0] == SEPARATOR {
            assert(kept =~= seq![SEPARATOR]);
        }
    }
    if whole == 0 || (whole == 1 && path[0] == SEPARATOR) {
        return None;
    }
    let mut cut: usize = whole;
    while cut > 0 && path[cut - 1] != SEPARATOR
        invariant
            cut <= whole <= path@.len(),
            forall|j: int| cut <= j < whole ==> path@[j] != SEPARATOR,
        decreases cut,
    {
        cut = cut - 1;
    }
    proof {
        lemma_last_separator_is(kept, cut - 1);
        assert(kept.take(cut as int) =~= path@.subrange(0, cut as int));
    }
    let dir = slice_subrange(path, 0, cut);
    let n: usize = trimmed_len(dir);
    assert(dir@.take(n as int) =~= dir@.subrange(0, n as int));
    Some(vstd::slice::slice_to_vec(slice_subrange(dir, 0, n)))
}

proof fn lemma_trimming_keeps_components(path: Seq<u8>)
    ensures
        components(trimmed(path)) == components(path),
        ({
            let t = trimmed(path);
            t.len() > 1 ==> t.last() != SEPARATOR && !(t.last() == DOT && t[t.len() - 2]
                == SEPARATOR)
        }),
    decreases path.len(),
{
    if path.len() > 1 && (path.last() == SEPARATOR || (path.last() == DOT && path[path.len() - 2]
        == SEPARATOR)) {
        let rest = path.drop_last();
        lemma_trimming_keeps_components(rest);
        assert(anchor(rest) == anchor(path));
        if path.last() == SEPARATOR {
            assert(path.take(path.len() - 1) =~= rest);
            assert(path.skip(path.len() as int) =~= Seq::<u8>::empty());
        } else {
            lemma_last_separator_is(path, path.len() - 2);
            assert(path.skip(path.len() - 1) =~= seq![DOT]);
            assert(rest.take(rest.len() - 1) =~= path.take(path.len() - 2));
            assert(rest.skip(rest.len() as int) =~= Seq::<u8>::empty());
        }
        assert(names(rest) == names(path));
    }
}

/// The parent of a path has all of its components but the last; only a path without components
/// and the root have no parent.
pub proof fn law_parent_drops_last_component(path: Seq<u8>)
    ensures
        match parent_of(path) {
            Some(dir) => components(path).len() > 0 && components(dir) == components(
                path,
            ).drop_last(),
            None => components(path).len() == 0 || components(path) == seq![seq![SEPARATOR]],
        },
{
    lemma_trimming_keeps_components(path);
    let t = trimmed(path);
    let k = last_separator(t);
    lemma_last_separator(t);
    if t.len() == 0 {
        assert(t.skip(0) =~= Seq::<u8>::empty());
        assert(components(t) =~= Seq::<Seq<u8>>::empty());
    } else if t == seq![SEPARATOR] {
        assert(t.take(0) =~= Seq::<u8>::empty());
        assert(t.take(0).skip(0) =~= Seq::<u8>::empty());
        assert(t.skip(1) =~= Seq::<u8>::empty());
        assert(names(t.take(0)) =~= Seq::<Seq<u8>>::empty());
        assert(components(t) =~= seq![seq![SEPARATOR]]);
    } else {
        let dir = t.take(k + 1);
        let piece = t.skip(k + 1);
        lemma_trimming_keeps_components(dir);
        if t.len() == 1 {
            assert(t =~= seq![t[0]]);
        }
        assert(piece.len() > 0);
        assert(piece.last() == t.last());
        if k < 0 {
            assert(piece =~= t);
            assert(dir =~= Seq::<u8>::empty());
            assert(dir.skip(0) =~= Seq::<u8>::empty());
            assert(components(dir) =~= Seq::<Seq<u8>>::empty());
            assert(components(t).drop_last() =~= Seq::<Seq<u8>>::empty());
        } else {
            assert(piece != seq![DOT]) by {
                if piece == seq![DOT] {
                    assert(t.len() == k + 2);
                    assert(t[t.len() - 2] == SEPARATOR);
                }
            }
            lemma_last_separator_is(dir, k);
            assert(dir.take(k) =~= t.take(k));
            assert(dir.skip(k + 1) =~= Seq::<u8>::empty());
            assert(names(dir) == names(t.take(k)));
            assert(anchor(dir) == anchor(t));
            assert(components(t).drop_last() =~= components(dir));
        }
    }
}

/// A path that has a parent has a last component, and that holds no separator.
pub proof fn lemma_last_component_is_relative(path: Seq<u8>)
    requires
        parent_of(path) is Some,
    ensures
        components(path).len() > 0,
        !components(path).last().contains(SEPARATOR),
        !is_absolute(components(path).last()),
{
    law_parent_drops_last_component(path);
    lemma_trimming_keeps_components(path);
    let t = trimmed(path);
    let k = last_separator(t);
    let piece = t.skip(k + 1);
    lemma_last_separator(t);
    if t.len() == 1 {
        assert(t =~= seq![t[0]]);
    }
    assert(piece.len() > 0 && piece[0] == t[k + 1]);
    if k < 0 {
        assert(piece =~= t);
    } else if piece == seq![DOT] {
        assert(t.len() == k + 2);
        assert(t[t.len() - 2] == SEPARATOR);
    }
    assert(!piece.contains(SEPARATOR)) by {
        assert(forall|i: int| 0 <= i < piece.len() ==> piece[i] == t[k + 1 + i]);
    }
    if is_name(piece) {
        assert(names(t).last() == piece);
        assert(components(t).last() == piece);
    } else {
        assert(t =~= seq![DOT]);
        assert(names(t) =~= Seq::<Seq<u8>>::empty());
        assert(components(t) =~= seq![seq![DOT]]);
    }
}

proof fn lemma_names_of_joined(a: Seq<u8>, b: Seq<u8>)
    ensures
        names(a.push(SEPARATOR) + b) == names(a) + names(b),
    decreases b.len(),
{
    let whole = a.push(SEPARATOR) + b;
    let k = last_separator(b);
    lemma_last_separator(b);
    lemma_last_separator_is(whole, a.len() + 1 + k);
    assert(whole.skip(a.len() + 1 + k + 1) =~= b.skip(k + 1));
    if k < 0 {
        assert(whole.take(a.len() as int) =~= a);
        assert(names(whole) =~= names(a) + names(b));
    } else {
        lemma_names_of_joined(a, b.take(k));
        assert(whole.take(a.len() + 1 + k) =~= a.push(SEPARATOR) + b.take(k));
        assert(names(whole) =~= names(a) + names(b));
    }
}

/// The names along a relative path seen from a directory are those of the directory and then those
/// of the path.
pub proof fn lemma_names_of_resolved(base: Seq<u8>, path: Seq<u8>)
    requires
        !is_absolute(path),
    ensures
        names(resolved(base, path)) == names(base) + names(path),
{
    let whole = resolved(base, path);
    if base.len() == 0 {
        assert(base.skip(0) =~= Seq::<u8>::empty());
        assert(names(base) =~= Seq::<Seq<u8>>::empty());
        assert(whole =~= path);
        assert(names(base) + names(path) =~= names(path));
    } else {
        let stem = if base.last() == SEPARATOR {
            base.drop_last()
        } else {
            base
        };
        assert(whole =~= stem.push(SEPARATOR) + path);
        lemma_names_of_joined(stem, path);
        if base.last() == SEPARATOR {
            assert(base.take(base.len() - 1) =~= stem);
            assert(base.skip(base.len() as int) =~= Seq::<u8>::empty());
        }
        assert(names(base) == names(stem));
    }
}

/// A piece without separators is one name, or none.
pub proof fn lemma_names_of_single(piece: Seq<u8>)
    requires
        !piece.contains(SEPARATOR),
    ensures
        !is_absolute(piece),
        names(piece) == (if is_name(piece) {
            seq![piece]
        } else {
            Seq::empty()
        }),
{
    assert forall|i: int| -1 < i < piece.len() implies piece[i] != SEPARATOR by {
        assert(piece.contains(piece[i]));
    }
    lemma_last_separator_is(piece, -1);
    assert(piece.skip(0) =~= piece);
    assert(names(piece) =~= if is_name(piece) {
        seq![piece]
    } else {
        Seq::empty()
    });
}

/// What lies in something that lies in a directory lies in that directory.
pub proof fn law_containment_is_transitive(inner: Seq<u8>, middle: Seq<u8>, outer: Seq<u8>)
    requires
        lies_in(inner, middle),
        lies_in(middle, outer),
    ensures
        lies_in(inner, outer),
{
    let n = components(outer).len() as int;
    assert(components(outer) =~= components(inner).subrange(0, n)) by {
        let m = components(middle).len() as int;
        assert(components(middle) == components(inner).subrange(0, m));
        assert(components(outer) == components(middle).subrange(0, n));
    }
}

/// A relative path resolved against a directory lies in that directory, by components.
pub proof fn law_relative_path_resolves_inside(base: Seq<u8>, path: Seq<u8>)
    requires
        !is_absolute(path),
    ensures
        lies_in(resolved(base, path), base),
{
    let whole = resolved(base, path);
    lemma_names_of_resolved(base, path);
    if base.len() == 0 {
        assert(base.skip(0) =~= Seq::<u8>::empty());
        assert(components(base) =~= Seq::<Seq<u8>>::empty());
    } else {
        assert(anchor(whole) == anchor(base));
    }
    let n = components(base).len() as int;
    assert(components(base) =~= components(whole).subrange(0, n));
}

/// A path lies in a directory exactly when its components begin with all of the directory's
/// components.
pub proof fn law_containment_goes_by_every_component(path: Seq<u8>, base: Seq<u8>)
    ensures
        lies_in(path, base) <==> components(path).len() >= components(base).len() && (forall|i: int|
            0 <= i < components(base).len() ==> #[trigger] components(path)[i] == components(
                base,
            )[i]),
{
    let n = components(base).len() as int;
    if components(path).len() >= n {
        let front = components(path).subrange(0, n);
        if forall|i: int|
            0 <= i < n ==> #[trigger] components(path)[i] == components(base)[i] {
            assert(components(base) =~= front);
        }
        if lies_in(path, base) {
            assert forall|i: int| 0 <= i < n implies #[trigger] components(path)[i] == components(
                base,
            )[i] by {
                assert(front[i] == components(path)[i]);
            }
        }
    }
}

/// Two directories with as many components lie in each other only when all their components are
/// the same; so of two different names in one directory, neither lies in the other.
pub proof fn law_siblings_do_not_contain_each_other(one: Seq<u8>, other: Seq<u8>)
    requires
        components(one).len() == components(other).len(),
    ensures
        lies_in(one, other) <==> components(one) == components(other),
{
    law_containment_goes_by_every_component(one, other);
    if lies_in(one, other) {
        assert(components(one) =~= components(other));
    }
}

/// The names along a path are what stands between its slashes: those of two paths with a slash
/// between them are the names of the one and then those of the other, and a piece without slashes
/// is a name of its own unless it is empty or a single dot.
pub proof fn law_names_stand_between_slashes(a: Seq<u8>, b: Seq<u8>, piece: Seq<u8>)
    requires
        forall|i: int| 0 <= i < piece.len() ==> piece[i] != 47,
    ensures
        names(a + seq![47u8] + b) == names(a) + names(b),
        piece.len() > 0 && piece != seq![46u8] ==> names(piece) == seq![piece],
        piece.len() == 0 || piece == seq![46u8] ==> names(piece).len() == 0,
{
    assert(a + seq![47u8] + b =~= a.push(SEPARATOR) + b);
    lemma_names_of_joined(a, b);
    assert(!piece.contains(SEPARATOR));
    lemma_names_of_single(piece);
}

/// The components of a path are its names, behind the root where the path starts with a slash, or
/// behind a dot where it is one or starts with one and a slash.
pub proof fn law_components_are_names_behind_an_anchor(path: Seq<u8>)
    ensures
        path.len() > 0 && path[0] == 47 ==> components(path) == seq![seq![47u8]] + names(path),
        path == seq![46u8] || (path.len() > 1 && path[0] == 46 && path[1] == 47)
            ==> components(path) == seq![seq![46u8]] + names(path),
        path.len() == 0 || (path[0] != 47 && path[0] != 46) || (path.len() > 1 && path[0] == 46
            && path[1] != 47) ==> components(path) == names(path),
{
    assert(Seq::<Seq<u8>>::empty() + names(path) =~= names(path));
}

/// A path that starts with a slash is seen the same from everywhere; any other is seen from a
/// directory as the directory, a slash where it does not end in one, and the path.
pub proof fn law_paths_are_seen_from_a_directory(base: Seq<u8>, path: Seq<u8>)
    ensures
        path.len() > 0 && path[0] == 47 ==> resolved(base, path) == path,
        !(path.len() > 0 && path[0] == 47) ==> {
            &&& base.len() == 0 || base.last() == 47 ==> resolved(base, path) == base + path
            &&& base.len() > 0 && base.last() != 47 ==> resolved(base, path) == base + seq![47u8]
                + path
        },
{
    assert(base.push(SEPARATOR) + path =~= base + seq![47u8] + path);
}

proof fn lemma_trimmed_is_prefix(path: Seq<u8>)
    ensures
        trimmed(path).len() <= path.len(),
        trimmed(path) == path.take(trimmed(path).len() as int),
    decreases path.len(),
{
    if path.len() > 1 && (path.last() == SEPARATOR || (path.last() == DOT && path[path.len() - 2]
        == SEPARATOR)) {
        let rest = path.drop_last();
        lemma_trimmed_is_prefix(rest);
        let n = trimmed(rest).len() as int;
        assert(rest.take(n) =~= path.take(n));
    } else {
        assert(path.take(path.len() as int) =~= path);
    }
}

/// The parent of a path is what the path begins with: all of its components but the last, without
/// slashes or slashed dots at its end. Only the root and a path without components have none.
pub proof fn law_parent_is_what_stands_before(path: Seq<u8>)
    ensures
        parent_of(path) is None <==> components(path).len() == 0 || components(path)
            == seq![seq![47u8]],
        parent_of(path) matches Some(dir) ==> {
            &&& components(dir) == components(path).drop_last()
            &&& dir.len() <= path.len()
            &&& dir == path.take(dir.len() as int)
            &&& dir.len() > 1 ==> dir.last() != 47 && !(dir.last() == 46 && dir[dir.len() - 2]
                == 47)
        },
{
    law_parent_drops_last_component(path);
    if let Some(dir) = parent_of(path) {
        lemma_last_component_is_relative(path);
        if components(path) == seq![seq![47u8]] {
            assert(components(path).last() == seq![47u8]);
        }
        let whole = trimmed(path);
        let stem = whole.take(last_separator(whole) + 1);
        lemma_last_separator(whole);
        lemma_trimmed_is_prefix(path);
        lemma_trimmed_is_prefix(stem);
        lemma_trimming_keeps_components(stem);
        let n = dir.len() as int;
        assert(dir =~= path.take(n));
    }
}

/// Strings of bytes are taken one by one.
pub proof fn law_byte_strings_are_the_pieces(pieces: Seq<Vec<u8>>, i: int)
    requires
        0 <= i < pieces.len(),
    ensures
        byte_strings(pieces).len() == pieces.len(),
        byte_strings(pieces)[i] == pieces[i]@,
{
}

} // verus!
