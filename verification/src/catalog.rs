//! Closed sets of named identifiers, and the resolution of a token to an
//! identifier of such a set.

use crate::error::DumpError;
use crate::text::{
    eq_ignore_case, is_lower, lemma_lower_concat, lemma_same_beginning, lemma_same_name_of_lower,
    same_name,
};
use vstd::prelude::*;

verus! {

/// Something that is shown to the user under a name.
pub trait Named {
    /// The name under which this value is shown.
    spec fn name(&self) -> Seq<char>;

    fn to_string(&self) -> (r: String)
        ensures
            r@ == self.name(),
    ;
}

/// A closed, ordered set of identifiers, each with a lower-case name.
///
/// A type that implements this trait lists every one of its values in
/// `spec_all`, in declaration order, and names each one in lower case.
pub trait Catalog: Named + Sized + Copy {
    /// Every identifier of the set, in declaration order.
    spec fn spec_all() -> Seq<Self>;

    fn all() -> (r: Vec<Self>)
        ensures
            r@ == Self::spec_all(),
    ;

    /// Every identifier is listed.
    proof fn lemma_listed(self)
        ensures
            Self::spec_all().contains(self),
    ;

    /// Every name is lower-case, and no two identifiers share a name.
    proof fn lemma_names(self, other: Self)
        ensures
            is_lower(self.name()),
            self.name() == other.name() ==> self == other,
    ;
}

/// What is listed in one of two sequences is listed in the two put together.
pub proof fn lemma_listed_in_concat<T>(first: Seq<T>, second: Seq<T>)
    ensures
        forall|item: T|
            first.contains(item) || second.contains(item) ==> #[trigger] (first
                + second).contains(item),
{
    assert forall|item: T| first.contains(item) || second.contains(item) implies #[trigger] (first
        + second).contains(item) by {
        if first.contains(item) {
            let i = choose|i: int| 0 <= i < first.len() && first[i] == item;
            assert((first + second)[i] == item);
        } else {
            let i = choose|i: int| 0 <= i < second.len() && second[i] == item;
            assert((first + second)[first.len() + i] == item);
        }
    }
}

/// The image of a listed item is listed among the images.
pub proof fn lemma_listed_in_image<T, U>(items: Seq<T>, image: spec_fn(T) -> U)
    ensures
        forall|item: T|
            items.contains(item) ==> items.map_values(image).contains(#[trigger] image(item)),
{
    assert forall|item: T| items.contains(item) implies items.map_values(image).contains(
        #[trigger] image(item),
    ) by {
        let i = choose|i: int| 0 <= i < items.len() && items[i] == item;
        assert(items.map_values(image)[i] == image(item));
    }
}

/// Behind a common lower-case beginning the names of a set stay lower-case
/// and apart from each other.
pub proof fn lemma_names_behind<T: Catalog>(begin: Seq<char>, item: T, other: T)
    requires
        is_lower(begin),
    ensures
        is_lower(begin + item.name()),
        begin + item.name() == begin + other.name() ==> item == other,
{
    item.lemma_names(other);
    lemma_lower_concat(begin, item.name());
    if begin + item.name() == begin + other.name() {
        lemma_same_beginning(begin, item.name(), other.name());
    }
}

/// Every identifier of a sequence is listed in its set.
pub proof fn lemma_all_listed<T: Catalog>(items: Seq<T>)
    ensures
        forall|i: int| 0 <= i < items.len() ==> T::spec_all().contains(#[trigger] items[i]),
{
    assert forall|i: int| 0 <= i < items.len() implies T::spec_all().contains(
        #[trigger] items[i],
    ) by {
        items[i].lemma_listed();
    }
}

/// The first of `items` whose name matches `token` up to letter case.
pub open spec fn find<T: Catalog>(items: Seq<T>, token: Seq<char>) -> Option<T>
    decreases items.len(),
{
    if items.len() == 0 {
        None
    } else if same_name(items[0].name(), token) {
        Some(items[0])
    } else {
        find(items.drop_first(), token)
    }
}

/// The identifier that `token` resolves to: the first one, in declaration
/// order, whose name matches it up to letter case.
pub open spec fn spec_lookup<T: Catalog>(token: Seq<char>) -> Option<T> {
    find(T::spec_all(), token)
}

/// Finds the identifier of the set `T` that a token names, ignoring letter
/// case.
pub fn lookup<T: Catalog>(token: &str) -> (r: Option<T>)
    ensures
        r == spec_lookup::<T>(token@),
{
    let all = T::all();
    let mut i: usize = 0;
    assert(all@.skip(0) =~= all@);
    while i < all.len()
        invariant
            i <= all.len(),
            all@ == T::spec_all(),
            find(all@, token@) == find(all@.skip(i as int), token@),
        decreases all.len() - i,
    {
        let name = all[i].to_string();
        let rest = Ghost(all@.skip(i as int));
        assert(rest@[0] == all@[i as int]);
        assert(rest@.drop_first() =~= all@.skip(i + 1));
        if eq_ignore_case(name.as_str(), token) {
            return Some(all[i]);
        }
        i += 1;
    }
    assert(all@.skip(i as int).len() == 0);
    None
}

/// Resolves a token to an identifier of the set `T`, ignoring letter case.
/// A token that names none is rejected, and reported as it was given.
pub fn parse<T: Catalog>(token: &str) -> (r: Result<T, DumpError>)
    ensures
        match r {
            Ok(item) => spec_lookup::<T>(token@) == Some(item),
            Err(error) => {
                &&& spec_lookup::<T>(token@) is None
                &&& error matches DumpError::NoSuchField(given)
                &&& given@ == token@
            },
        },
{
    match lookup::<T>(token) {
        Some(item) => Ok(item),
        None => Err(DumpError::NoSuchField(token.to_owned())),
    }
}

/// What `find` returns: `None` exactly when no item matches; otherwise the
/// item at the least matching position.
pub proof fn lemma_find<T: Catalog>(items: Seq<T>, token: Seq<char>)
    ensures
        find(items, token) is None <==> forall|i: int|
            0 <= i < items.len() ==> !same_name(#[trigger] items[i].name(), token),
        find(items, token) matches Some(x) ==> exists|i: int|
            0 <= i < items.len() && #[trigger] items[i] == x && same_name(x.name(), token)
                && forall|j: int|
                0 <= j < i ==> !same_name(#[trigger] items[j].name(), token),
    decreases items.len(),
{
    if items.len() == 0 {
    } else if same_name(items[0].name(), token) {
        assert(items[0] == find(items, token)->0);
    } else {
        let rest = items.drop_first();
        lemma_find(rest, token);
        assert forall|i: int| 0 <= i < rest.len() implies rest[i] == items[i + 1] by {}
        if find(rest, token) is None {
            assert forall|i: int| 0 <= i < items.len() implies !same_name(
                #[trigger] items[i].name(),
                token,
            ) by {
                if i > 0 {
                    assert(rest[i - 1] == items[i]);
                }
            }
        } else {
            let x = find(rest, token)->0;
            let k = choose|i: int|
                0 <= i < rest.len() && #[trigger] rest[i] == x && same_name(x.name(), token)
                    && forall|j: int|
                    0 <= j < i ==> !same_name(#[trigger] rest[j].name(), token);
            assert(items[k + 1] == x);
            assert forall|j: int| 0 <= j < k + 1 implies !same_name(
                #[trigger] items[j].name(),
                token,
            ) by {
                if j > 0 {
                    assert(rest[j - 1] == items[j]);
                }
            }
        }
    }
}

/// Resolution never depends on the letter case of the token.
pub proof fn lemma_lookup_ignores_case<T: Catalog>(a: Seq<char>, b: Seq<char>)
    requires
        same_name(a, b),
    ensures
        spec_lookup::<T>(a) == spec_lookup::<T>(b),
{
    lemma_find_ignores_case(T::spec_all(), a, b);
}

proof fn lemma_find_ignores_case<T: Catalog>(items: Seq<T>, a: Seq<char>, b: Seq<char>)
    requires
        same_name(a, b),
    ensures
        find(items, a) == find(items, b),
    decreases items.len(),
{
    if items.len() > 0 {
        lemma_find_ignores_case(items.drop_first(), a, b);
    }
}

/// A token resolves to an identifier exactly when it is the name of that
/// identifier up to letter case. So the name of every identifier resolves to
/// that identifier: rendering and parsing give the identifier back.
pub proof fn lemma_lookup_by_name<T: Catalog>(token: Seq<char>, x: T)
    ensures
        spec_lookup::<T>(token) == Some(x) <==> same_name(x.name(), token),
        spec_lookup::<T>(x.name()) == Some(x),
{
    let all = T::spec_all();
    x.lemma_listed();
    x.lemma_names(x);
    lemma_find(all, token);
    lemma_find(all, x.name());
    if same_name(x.name(), token) {
        let y = find(all, token)->0;
        y.lemma_names(x);
        lemma_same_name_of_lower(y.name(), x.name());
    }
    let z = find(all, x.name())->0;
    z.lemma_names(x);
    lemma_same_name_of_lower(z.name(), x.name());
}

/// A name of one set resolves to nothing in a set that holds no such name.
pub proof fn lemma_lookup_apart<T: Catalog, U: Catalog>(x: T)
    requires
        forall|y: U| #![trigger y.name()] x.name() != y.name(),
    ensures
        spec_lookup::<U>(x.name()) is None,
{
    lemma_find(U::spec_all(), x.name());
    if spec_lookup::<U>(x.name()) is Some {
        let y = spec_lookup::<U>(x.name())->0;
        x.lemma_names(x);
        y.lemma_names(y);
        lemma_same_name_of_lower(y.name(), x.name());
    }
}

/// Rendering an identifier, parsing the name and rendering again gives the
/// first rendering.
pub proof fn lemma_round_trip<T: Catalog>(x: T)
    ensures
        spec_lookup::<T>(x.name()) is Some,
        spec_lookup::<T>(x.name())->0.name() == x.name(),
{
    lemma_lookup_by_name::<T>(x.name(), x);
}

/// Appends to `out` the image under `wrap` of each of `items`, in order.
pub(crate) fn extend_mapped<T: Copy, U, W: Fn(T) -> U>(
    out: &mut Vec<U>,
    items: &Vec<T>,
    wrap: W,
    Ghost(image): Ghost<spec_fn(T) -> U>,
)
    requires
        forall|item: T| call_requires(wrap, (item,)),
        forall|item: T, wrapped: U|
            call_ensures(wrap, (item,), wrapped) ==> wrapped == image(item),
    ensures
        final(out)@ == old(out)@ + items@.map_values(image),
{
    let ghost before = out@;
    let mut i: usize = 0;
    while i < items.len()
        invariant
            i <= items.len(),
            forall|item: T| call_requires(wrap, (item,)),
            forall|item: T, wrapped: U|
                call_ensures(wrap, (item,), wrapped) ==> wrapped == image(item),
            out@ == before + items@.take(i as int).map_values(image),
        decreases items.len() - i,
    {
        out.push(wrap(items[i]));
        assert(items@.take(i + 1).map_values(image) =~= items@.take(i as int).map_values(
            image,
        ).push(image(items@[i as int])));
        i += 1;
    }
    assert(items@.take(i as int) =~= items@);
}

/// The image under `wrap` of each of `items`, in order.
pub(crate) fn mapped<T: Copy, U, W: Fn(T) -> U>(
    items: &Vec<T>,
    wrap: W,
    Ghost(image): Ghost<spec_fn(T) -> U>,
) -> (out: Vec<U>)
    requires
        forall|item: T| call_requires(wrap, (item,)),
        forall|item: T, wrapped: U|
            call_ensures(wrap, (item,), wrapped) ==> wrapped == image(item),
    ensures
        out@ == items@.map_values(image),
{
    let mut out = Vec::new();
    extend_mapped(&mut out, items, wrap, Ghost(image));
    assert(out@ =~= items@.map_values(image));
    out
}

} // verus!
