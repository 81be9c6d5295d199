//! Where a path leads when not all of it is there yet: the real place of what is there, and the
//! missing names behind it.

use crate::path::{
    anchor, byte_strings, components, law_parent_drops_last_component,
    law_parent_is_what_stands_before, law_relative_path_resolves_inside, lemma_last_component_is_relative, lemma_names_of_resolved,
    lemma_names_of_single, lies_in, names, parent, parent_of, resolve, resolved, same_bytes,
    starts_with, DOT, SEPARATOR,
};
use vstd::prelude::*;

verus! {

/// The name of the directory above.
pub open spec fn above() -> Seq<u8> {
    seq![DOT, DOT]
}

/// The position of the first of `names` that is two dots, or the number of names.
pub open spec fn first_climb(names: Seq<Seq<u8>>) -> nat
    decreases names.len(),
{
    if names.len() == 0 || names[0] == above() {
        0
    } else {
        1 + first_climb(names.drop_first())
    }
}

/// `base` with `names` put behind it.
pub open spec fn joined(base: Seq<u8>, names: Seq<Seq<u8>>) -> Seq<u8>
    decreases names.len(),
{
    if names.len() == 0 {
        base
    } else {
        resolved(joined(base, names.drop_last()), names.last())
    }
}

/// The directory above a real place. The root has itself above it.
pub open spec fn directory_above(place: Seq<u8>) -> Seq<u8> {
    match parent_of(place) {
        Some(dir) => dir,
        None => place,
    }
}

/// The real `place` with the missing `rest` behind it, once its first two dots have cancelled out
/// with what stands before them. What is missing is made as plain directories, so that two dots
/// lead back out of each.
pub open spec fn collapsed(place: Seq<u8>, rest: Seq<Seq<u8>>) -> Seq<u8> {
    let i = first_climb(rest) as int;
    let stem = if i == 0 {
        directory_above(place)
    } else {
        joined(place, rest.take(i - 1))
    };
    joined(stem, rest.skip(i + 1))
}

/// `location` lies in one of `bounds`.
pub open spec fn lies_in_any(location: Seq<u8>, bounds: Seq<Seq<u8>>) -> bool {
    exists|k: int| 0 <= k < bounds.len() && lies_in(location, #[trigger] bounds[k])
}

/// Before the first two dots stand only other names.
pub proof fn lemma_first_climb(names: Seq<Seq<u8>>)
    ensures
        first_climb(names) <= names.len(),
        forall|k: int| 0 <= k < first_climb(names) ==> names[k] != above(),
        first_climb(names) < names.len() ==> names[first_climb(names) as int] == above(),
    decreases names.len(),
{
    if names.len() > 0 && names[0] != above() {
        let rest = names.drop_first();
        lemma_first_climb(rest);
        assert forall|k: int| 0 <= k < first_climb(names) implies names[k] != above() by {
            if k > 0 {
                assert(names[k] == rest[k - 1]);
            }
        }
    }
}

proof fn lemma_first_climb_is(names: Seq<Seq<u8>>, i: int)
    requires
        0 <= i <= names.len(),
        forall|k: int| 0 <= k < i ==> names[k] != above(),
        i < names.len() ==> names[i] == above(),
    ensures
        first_climb(names) == i,
{
    lemma_first_climb(names);
}

/// Finds the first of `names` that is two dots.
pub fn find_climb(names: &Vec<Vec<u8>>) -> (i: usize)
    ensures
        i == first_climb(byte_strings(names@)),
        i <= names@.len(),
        forall|k: int| 0 <= k < i ==> (#[trigger] names@[k])@ != seq![46u8, 46u8],
        i < names@.len() ==> names@[i as int]@ == seq![46u8, 46u8],
{
    let up: [u8; 2] = [DOT, DOT];
    assert(up@ =~= above());
    let ghost whole = byte_strings(names@);
    let mut i: usize = 0;
    while i < names.len()
        invariant
            i <= names@.len(),
            whole == byte_strings(names@),
            up@ == above(),
            forall|k: int| 0 <= k < i ==> whole[k] != above(),
        decreases names@.len() - i,
    {
        assert(whole[i as int] == names@[i as int]@);
        if same_bytes(names[i].as_slice(), &up) {
            proof {
                lemma_first_climb_is(whole, i as int);
                assert forall|k: int| 0 <= k < i implies (#[trigger] names@[k])@ != seq![
                    46u8,
                    46u8,
                ] by {
                    assert(whole[k] == names@[k]@);
                }
            }
            return i;
        }
        i = i + 1;
    }
    proof {
        lemma_first_climb_is(whole, i as int);
        assert forall|k: int| 0 <= k < i implies (#[trigger] names@[k])@ != seq![46u8, 46u8] by {
            assert(whole[k] == names@[k]@);
        }
    }
    i
}

/// Puts the names from `start` on and before `end` behind `base`.
pub(crate) fn join(base: &[u8], names: &Vec<Vec<u8>>, start: usize, end: usize) -> (whole: Vec<u8>)
    requires
        start <= end <= names@.len(),
    ensures
        whole@ == joined(base@, byte_strings(names@).subrange(start as int, end as int)),
{
    let ghost all = byte_strings(names@);
    let mut whole = vstd::slice::slice_to_vec(base);
    let mut i: usize = start;
    assert(all.subrange(start as int, start as int) =~= Seq::<Seq<u8>>::empty());
    while i < end
        invariant
            start <= i <= end <= names@.len(),
            all == byte_strings(names@),
            whole@ == joined(base@, all.subrange(start as int, i as int)),
        decreases end - i,
    {
        whole = resolve(whole.as_slice(), names[i].as_slice());
        assert(all.subrange(start as int, i + 1).drop_last() =~= all.subrange(
            start as int,
            i as int,
        ));
        assert(all.subrange(start as int, i + 1).last() == names@[i as int]@);
        i = i + 1;
    }
    whole
}

/// Cancels out the first two dots of `rest`, which are at `i`.
pub(crate) fn collapse(place: &[u8], rest: &Vec<Vec<u8>>, i: usize) -> (path: Vec<u8>)
    requires
        i == first_climb(byte_strings(rest@)),
        i < rest@.len(),
    ensures
        path@ == collapsed(place@, byte_strings(rest@)),
{
    let n: usize = rest.len();
    let ghost all = byte_strings(rest@);
    let stem = if i == 0 {
        match parent(place) {
            Some(dir) => dir,
            None => vstd::slice::slice_to_vec(place),
        }
    } else {
        assert(all.subrange(0, i - 1) =~= all.take(i - 1));
        join(place, rest, 0, i - 1)
    };
    assert(all.subrange(i + 1, n as int) =~= all.skip(i + 1));
    join(stem.as_slice(), rest, i + 1, n)
}

/// Tells whether `location` lies in one of `bounds`.
pub fn is_in_any(location: &[u8], bounds: &Vec<Vec<u8>>) -> (inside: bool)
    ensures
        inside == lies_in_any(location@, byte_strings(bounds@)),
        inside <==> exists|k: int|
            0 <= k < bounds@.len() && lies_in(location@, (#[trigger] bounds@[k])@),
{
    let ghost all = byte_strings(bounds@);
    let mut i: usize = 0;
    while i < bounds.len()
        invariant
            i <= bounds@.len(),
            all == byte_strings(bounds@),
            forall|k: int| 0 <= k < i ==> !lies_in(location@, #[trigger] all[k]),
        decreases bounds@.len() - i,
    {
        assert(all[i as int] == bounds@[i as int]@);
        if starts_with(location, bounds[i].as_slice()) {
            return true;
        }
        i = i + 1;
    }
    assert forall|k: int| 0 <= k < bounds@.len() implies !lies_in(
        location@,
        (#[trigger] bounds@[k])@,
    ) by {
        assert(all[k] == bounds@[k]@);
    }
    false
}

/// A file system, as far as the search for a path's place asks it: which paths are there and
/// where they really are, and which paths are links and where they lead.
pub struct FileSystem {
    pub real: spec_fn(Seq<u8>) -> Option<Seq<u8>>,
    pub link: spec_fn(Seq<u8>) -> Option<Seq<u8>>,
}

impl FileSystem {
    /// Where `path` with `rest` behind it leads once what is missing has been made, as far as that
    /// can be told in `fuel` looks. What is there is at its real place; a link to nothing leads on
    /// to where it points; of anything else that is missing, the directory is looked for.
    pub open spec fn landing(self, path: Seq<u8>, rest: Seq<Seq<u8>>, fuel: nat) -> Option<
        Seq<u8>,
    >
        decreases fuel,
    {
        if fuel == 0 {
            None
        } else {
            let less = (fuel - 1) as nat;
            match ((self.real)(path), (self.link)(path), parent_of(path)) {
                (Some(place), _, _) => if first_climb(rest) == rest.len() {
                    Some(joined(place, rest))
                } else {
                    self.landing(collapsed(place, rest), Seq::empty(), less)
                },
                (None, Some(destination), Some(dir)) => self.landing(
                    resolved(dir, destination),
                    rest,
                    less,
                ),
                (None, None, Some(dir)) => self.landing(
                    dir,
                    seq![components(path).last()] + rest,
                    less,
                ),
                (None, _, None) => None,
            }
        }
    }

    /// `path` with `rest` behind it leads to `location`.
    pub open spec fn lands_from(
        self,
        path: Seq<u8>,
        rest: Seq<Seq<u8>>,
        location: Seq<u8>,
    ) -> bool {
        exists|fuel: nat| #[trigger] self.landing(path, rest, fuel) == Some(location)
    }

    /// `path` leads to `location`.
    pub open spec fn lands(self, path: Seq<u8>, location: Seq<u8>) -> bool {
        self.lands_from(path, Seq::empty(), location)
    }
}

/// A path that is there leads to its real place and nowhere else.
pub proof fn law_existing_path_leads_to_its_place(
    fs: FileSystem,
    path: Seq<u8>,
    place: Seq<u8>,
    location: Seq<u8>,
)
    requires
        (fs.real)(path) == Some(place),
    ensures
        fs.lands(path, location) <==> location == place,
{
    let none = Seq::<Seq<u8>>::empty();
    assert(fs.landing(path, none, 1) == Some(place));
    if fs.lands(path, location) {
        let fuel = choose|fuel: nat| #[trigger] fs.landing(path, none, fuel) == Some(location);
        assert(fuel > 0);
    }
}

/// A path whose directory is there, but that is not there itself and is no link, leads to its name
/// behind the directory's real place, and so to something in that place. (A path that ends in two
/// dots names a directory.)
pub proof fn law_new_path_leads_into_its_directory(
    fs: FileSystem,
    path: Seq<u8>,
    dir: Seq<u8>,
    place: Seq<u8>,
)
    requires
        (fs.real)(path) is None,
        (fs.link)(path) is None,
        parent_of(path) == Some(dir),
        (fs.real)(dir) == Some(place),
        components(path).last() != above(),
    ensures
        fs.lands(path, resolved(place, components(path).last())),
        lies_in(resolved(place, components(path).last()), place),
{
    let name = components(path).last();
    let none = Seq::<Seq<u8>>::empty();
    let rest = seq![name];
    lemma_last_component_is_relative(path);
    law_relative_path_resolves_inside(place, name);
    assert(rest + none =~= rest);
    lemma_first_climb_is(rest, 1);
    assert(rest.drop_last() =~= none);
    assert(joined(place, rest.drop_last()) == place);
    assert(joined(place, rest) == resolved(place, name));
    assert(fs.landing(dir, rest, 1) == Some(resolved(place, name)));
    assert(fs.landing(path, none, 2) == fs.landing(dir, rest, 1));
}

proof fn lemma_more_fuel(fs: FileSystem, path: Seq<u8>, rest: Seq<Seq<u8>>, fuel: nat, more: nat)
    requires
        fs.landing(path, rest, fuel) is Some,
        fuel <= more,
    ensures
        fs.landing(path, rest, more) == fs.landing(path, rest, fuel),
    decreases fuel,
{
    let less = (fuel - 1) as nat;
    match ((fs.real)(path), (fs.link)(path), parent_of(path)) {
        (Some(place), _, _) => {
            if first_climb(rest) != rest.len() {
                lemma_more_fuel(
                    fs,
                    collapsed(place, rest),
                    Seq::empty(),
                    less,
                    (more - 1) as nat,
                );
            }
        },
        (None, Some(destination), Some(dir)) => {
            lemma_more_fuel(fs, resolved(dir, destination), rest, less, (more - 1) as nat);
        },
        (None, None, Some(dir)) => {
            lemma_more_fuel(
                fs,
                dir,
                seq![components(path).last()] + rest,
                less,
                (more - 1) as nat,
            );
        },
        (None, _, None) => {},
    }
}

/// A path leads to one location at most.
pub proof fn law_location_is_unique(fs: FileSystem, path: Seq<u8>, one: Seq<u8>, other: Seq<u8>)
    requires
        fs.lands(path, one),
        fs.lands(path, other),
    ensures
        one == other,
{
    let none = Seq::<Seq<u8>>::empty();
    let f = choose|fuel: nat| #[trigger] fs.landing(path, none, fuel) == Some(one);
    let g = choose|fuel: nat| #[trigger] fs.landing(path, none, fuel) == Some(other);
    if f <= g {
        lemma_more_fuel(fs, path, none, f, g);
    } else {
        lemma_more_fuel(fs, path, none, g, f);
    }
}

/// How many of `names` are two dots.
pub open spec fn climb_count(names: Seq<Seq<u8>>) -> nat
    decreases names.len(),
{
    if names.len() == 0 {
        0
    } else {
        climb_count(names.drop_last()) + (if names.last() == above() {
            1nat
        } else {
            0nat
        })
    }
}

/// None of `names` holds a separator.
pub open spec fn are_single(names: Seq<Seq<u8>>) -> bool {
    forall|k: int| 0 <= k < names.len() ==> !(#[trigger] names[k]).contains(SEPARATOR)
}

/// A real place goes down from the root by names alone.
pub open spec fn is_canonical(place: Seq<u8>) -> bool {
    climb_count(components(place)) == 0
}

pub(crate) proof fn lemma_count_of_sum(a: Seq<Seq<u8>>, b: Seq<Seq<u8>>)
    ensures
        climb_count(a + b) == climb_count(a) + climb_count(b),
    decreases b.len(),
{
    if b.len() == 0 {
        assert(a + b =~= a);
    } else {
        lemma_count_of_sum(a, b.drop_last());
        assert((a + b).drop_last() =~= a + b.drop_last());
    }
}

pub(crate) proof fn lemma_count_of_one(name: Seq<u8>)
    ensures
        climb_count(seq![name]) == (if name == above() {
            1nat
        } else {
            0nat
        }),
{
    assert(seq![name].drop_last() =~= Seq::<Seq<u8>>::empty());
    reveal_with_fuel(climb_count, 2);
}

proof fn lemma_count_of_components(path: Seq<u8>)
    ensures
        climb_count(components(path)) == climb_count(names(path)),
{
    lemma_count_of_sum(anchor(path), names(path));
    lemma_count_of_one(seq![SEPARATOR]);
    lemma_count_of_one(seq![DOT]);
    assert(seq![SEPARATOR].len() != above().len() && seq![DOT].len() != above().len());
}

proof fn lemma_count_of_joined(base: Seq<u8>, rest: Seq<Seq<u8>>)
    requires
        are_single(rest),
    ensures
        climb_count(components(joined(base, rest))) == climb_count(components(base))
            + climb_count(rest),
    decreases rest.len(),
{
    if rest.len() > 0 {
        let front = rest.drop_last();
        let name = rest.last();
        let stem = joined(base, front);
        assert(are_single(front)) by {
            assert(forall|k: int| 0 <= k < front.len() ==> front[k] == rest[k]);
        }
        lemma_count_of_joined(base, front);
        assert(!rest[rest.len() - 1].contains(SEPARATOR));
        lemma_names_of_single(name);
        lemma_names_of_resolved(stem, name);
        lemma_count_of_sum(names(stem), names(name));
        lemma_count_of_one(name);
        lemma_count_of_components(stem);
        lemma_count_of_components(resolved(stem, name));
        assert(above().len() == 2);
        assert(seq![DOT].len() == 1);
    }
}

/// Each time that two dots cancel out, there are fewer of them left.
pub proof fn law_collapsing_removes_a_climb(place: Seq<u8>, rest: Seq<Seq<u8>>)
    requires
        is_canonical(place),
        are_single(rest),
        first_climb(rest) < rest.len(),
    ensures
        climb_count(components(collapsed(place, rest))) < climb_count(rest),
{
    let i = first_climb(rest) as int;
    let tail = rest.skip(i + 1);
    lemma_first_climb(rest);
    assert(are_single(tail)) by {
        assert(forall|k: int| 0 <= k < tail.len() ==> tail[k] == rest[k + i + 1]);
    }
    assert(rest =~= rest.take(i) + seq![above()] + tail);
    lemma_count_of_sum(rest.take(i) + seq![above()], tail);
    lemma_count_of_sum(rest.take(i), seq![above()]);
    lemma_count_of_one(above());
    if i == 0 {
        law_parent_drops_last_component(place);
        if let Some(dir) = parent_of(place) {
            let whole = components(place);
            assert(components(dir) == whole.drop_last());
            assert(climb_count(components(dir)) <= climb_count(whole));
        }
        lemma_count_of_joined(directory_above(place), tail);
    } else {
        let head = rest.take(i - 1);
        assert(are_single(head)) by {
            assert(forall|k: int| 0 <= k < head.len() ==> head[k] == rest[k]);
        }
        lemma_count_of_joined(place, head);
        lemma_count_of_joined(joined(place, head), tail);
        assert(rest.take(i) =~= head + seq![rest[i - 1]]);
        lemma_count_of_sum(head, seq![rest[i - 1]]);
    }
}

/// The first two dots are found: none of the names before is two dots, and the name there is, if
/// there is one.
pub proof fn law_first_climb_is_the_first(names: Seq<Seq<u8>>)
    ensures
        first_climb(names) <= names.len(),
        forall|k: int| 0 <= k < first_climb(names) ==> #[trigger] names[k] != seq![46u8, 46u8],
        first_climb(names) < names.len() ==> names[first_climb(names) as int] == seq![46u8, 46u8],
{
    lemma_first_climb(names);
}

/// Names that are put behind a path are its last components, in order.
pub proof fn law_joined_names_are_the_last_components(base: Seq<u8>, rest: Seq<Seq<u8>>)
    requires
        base.len() > 0,
        forall|k: int|
            0 <= k < rest.len() ==> #[trigger] rest[k].len() > 0 && rest[k] != seq![46u8]
                && !rest[k].contains(47u8),
    ensures
        components(joined(base, rest)) == components(base) + rest,
        joined(base, rest).len() > 0,
    decreases rest.len(),
{
    if rest.len() == 0 {
        assert(components(base) + rest =~= components(base));
    } else {
        let front = rest.drop_last();
        let name = rest.last();
        let stem = joined(base, front);
        assert forall|k: int| 0 <= k < front.len() implies #[trigger] front[k].len() > 0
            && front[k] != seq![46u8] && !front[k].contains(47u8) by {
            assert(front[k] == rest[k]);
        }
        law_joined_names_are_the_last_components(base, front);
        assert(rest[rest.len() - 1] == name);
        lemma_names_of_single(name);
        lemma_names_of_resolved(stem, name);
        assert(anchor(resolved(stem, name)) == anchor(stem));
        assert(components(resolved(stem, name)) =~= components(stem) + seq![name]);
        assert(components(stem) + seq![name] =~= components(base) + rest);
    }
}

/// Where two dots cancel out, the name before them and they themselves are gone, and nothing else;
/// where they come first, so is the last component of the place, if that is not the root.
pub proof fn law_two_dots_cancel_the_name_before(place: Seq<u8>, rest: Seq<Seq<u8>>)
    requires
        place.len() > 0 && place[0] == 47,
        forall|k: int|
            0 <= k < rest.len() ==> #[trigger] rest[k].len() > 0 && rest[k] != seq![46u8]
                && !rest[k].contains(47u8),
        first_climb(rest) < rest.len(),
    ensures
        ({
            let i = first_climb(rest) as int;
            let left = components(collapsed(place, rest));
            &&& i > 0 ==> left == components(place) + rest.take(i - 1) + rest.skip(i + 1)
            &&& i == 0 && components(place).len() > 1 ==> left == components(place).drop_last()
                + rest.skip(1)
            &&& i == 0 && components(place).len() == 1 ==> left == components(place) + rest.skip(1)
        }),
{
    let i = first_climb(rest) as int;
    let tail = rest.skip(i + 1);
    assert forall|k: int| 0 <= k < tail.len() implies #[trigger] tail[k].len() > 0 && tail[k]
        != seq![46u8] && !tail[k].contains(47u8) by {
        assert(tail[k] == rest[k + i + 1]);
    }
    law_parent_is_what_stands_before(place);
    assert(components(place)[0] == seq![47u8]);
    if i > 0 {
        let head = rest.take(i - 1);
        assert forall|k: int| 0 <= k < head.len() implies #[trigger] head[k].len() > 0 && head[k]
            != seq![46u8] && !head[k].contains(47u8) by {
            assert(head[k] == rest[k]);
        }
        law_joined_names_are_the_last_components(place, head);
        law_joined_names_are_the_last_components(joined(place, head), tail);
    } else {
        if components(place).len() == 1 {
            assert(components(place) =~= seq![seq![47u8]]);
        } else {
            let dir = parent_of(place)->0;
            if dir.len() == 0 {
                assert(dir.skip(0) =~= Seq::<u8>::empty());
                assert(components(dir) =~= Seq::<Seq<u8>>::empty());
                assert(components(dir).len() == components(place).len() - 1);
            }
        }
        law_joined_names_are_the_last_components(directory_above(place), tail);
    }
}

/// Something lies in any of the bounds exactly when there is one of them that it lies in.
pub proof fn law_one_bound_is_enough(location: Seq<u8>, bounds: Seq<Seq<u8>>, k: int)
    ensures
        0 <= k < bounds.len() && lies_in(location, bounds[k]) ==> lies_in_any(location, bounds),
        lies_in_any(location, bounds) ==> exists|j: int|
            0 <= j < bounds.len() && lies_in(location, #[trigger] bounds[j]),
{
}

/// Names are put behind a path one by one, each as seen from the directory before it.
pub proof fn law_names_are_joined_one_by_one(base: Seq<u8>, rest: Seq<Seq<u8>>, name: Seq<u8>)
    ensures
        joined(base, Seq::empty()) == base,
        joined(base, rest.push(name)) == resolved(joined(base, rest), name),
{
    assert(rest.push(name).drop_last() =~= rest);
}

/// Where a path leads, step by step: one that is there leads to its place with what is missing
/// behind it, two dots cancelled out; a link to nothing leads to where it points; anything else
/// that is not there leads to where its directory does, with its name put before what is missing.
pub proof fn law_paths_lead_on_step_by_step(
    fs: FileSystem,
    path: Seq<u8>,
    rest: Seq<Seq<u8>>,
    location: Seq<u8>,
)
    ensures
        (fs.real)(path) matches Some(place) ==> {
            &&& (forall|k: int| 0 <= k < rest.len() ==> #[trigger] rest[k] != seq![46u8, 46u8])
                ==> (fs.lands_from(path, rest, location) <==> location == joined(place, rest))
            &&& (exists|k: int| 0 <= k < rest.len() && #[trigger] rest[k] == seq![46u8, 46u8]) ==> (
            fs.lands_from(path, rest, location) <==> fs.lands(collapsed(place, rest), location))
        },
        (fs.real)(path) is None ==> ((fs.link)(path) matches Some(destination) ==> (parent_of(
            path,
        ) matches Some(dir) ==> (fs.lands_from(path, rest, location) <==> fs.lands_from(
            resolved(dir, destination),
            rest,
            location,
        )))),
        (fs.real)(path) is None && (fs.link)(path) is None ==> (parent_of(path) matches Some(dir)
            ==> (fs.lands_from(path, rest, location) <==> fs.lands_from(
            dir,
            seq![components(path).last()] + rest,
            location,
        ))),
        (fs.real)(path) is None && parent_of(path) is None ==> !fs.lands_from(path, rest, location),
{
    lemma_first_climb(rest);
    let next: Option<(Seq<u8>, Seq<Seq<u8>>)> = match (
        (fs.real)(path),
        (fs.link)(path),
        parent_of(path),
    ) {
        (Some(place), _, _) => if first_climb(rest) == rest.len() {
            None
        } else {
            Some((collapsed(place, rest), Seq::empty()))
        },
        (None, Some(destination), Some(dir)) => Some((resolved(dir, destination), rest)),
        (None, None, Some(dir)) => Some((dir, seq![components(path).last()] + rest)),
        (None, _, None) => None,
    };
    if fs.lands_from(path, rest, location) {
        let fuel = choose|fuel: nat| #[trigger] fs.landing(path, rest, fuel) == Some(location);
        assert(fuel > 0);
        if let Some((to, behind)) = next {
            assert(fs.landing(to, behind, (fuel - 1) as nat) == Some(location));
        }
    }
    if let Some((to, behind)) = next {
        if fs.lands_from(to, behind, location) {
            let fuel = choose|fuel: nat| #[trigger] fs.landing(to, behind, fuel) == Some(location);
            assert(fs.landing(path, rest, fuel + 1) == Some(location));
        }
    } else if let Some(place) = (fs.real)(path) {
        assert(fs.landing(path, rest, 1) == Some(joined(place, rest)));
    }
}

} // verus!
