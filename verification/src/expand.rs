//! From a field selection to the columns of the output.

use crate::catalog::Named;
use crate::field::{AggField, DumpField, DumpOptionField, FieldId};
use crate::text::join_with;
use vstd::prelude::*;
use vstd::seq_lib::lemma_flatten_concat;
use vstd::string::StringExecFns;

verus! {

/// The columns that one entry of a selection stands for: a single column
/// stands for itself, a group for its leaf fields in the group's own order.
pub open spec fn spec_expand_one<F: FieldId, A: AggField<F>>(
    field: DumpOptionField<F, A>,
    detail: bool,
) -> Seq<DumpField<F>> {
    match field {
        DumpOptionField::Unit(unit) => seq![unit],
        DumpOptionField::Agg(agg) => agg.spec_expand(detail).map_values(
            |field_id: F| DumpField::FieldId(field_id),
        ),
    }
}

/// The columns that a selection stands for: those of each entry, in the order
/// of the entries. Nothing is removed, so an entry given twice shows twice.
pub open spec fn spec_expand_fields<F: FieldId, A: AggField<F>>(
    fields: Seq<DumpOptionField<F, A>>,
    detail: bool,
) -> Seq<DumpField<F>> {
    fields.flat_map(|field: DumpOptionField<F, A>| spec_expand_one(field, detail))
}

/// Expands the groups of a selection and collects their leaf fields with the
/// single columns, in the order of the selection.
pub fn expand_fields<F: FieldId, A: AggField<F>>(
    fields: &[DumpOptionField<F, A>],
    detail: bool,
) -> (res: Vec<DumpField<F>>)
    ensures
        res@ == spec_expand_fields(fields@, detail),
{
    let ghost one = |field: DumpOptionField<F, A>| spec_expand_one(field, detail);
    let mut res: Vec<DumpField<F>> = Vec::new();
    let mut i: usize = 0;
    assert(fields@.take(0).flat_map(one) =~= Seq::empty()) by {
        assert(fields@.take(0).map_values(one) =~= Seq::empty());
    }
    while i < fields.len()
        invariant
            i <= fields.len(),
            one == |field: DumpOptionField<F, A>| spec_expand_one(field, detail),
            res@ == fields@.take(i as int).flat_map(one),
        decreases fields.len() - i,
    {
        proof {
            fields@.lemma_flat_map_take_append(one, i as int);
        }
        let ghost before = res@;
        match &fields[i] {
            DumpOptionField::Unit(field) => {
                res.push(*field);
                assert(res@ =~= before + one(fields@[i as int]));
            },
            DumpOptionField::Agg(agg) => {
                let expanded = agg.expand(detail);
                let ghost wrap = |field_id: F| DumpField::FieldId(field_id);
                let mut j: usize = 0;
                while j < expanded.len()
                    invariant
                        j <= expanded.len(),
                        wrap == |field_id: F| DumpField::FieldId(field_id),
                        res@ == before + expanded@.take(j as int).map_values(wrap),
                    decreases expanded.len() - j,
                {
                    res.push(DumpField::FieldId(expanded[j]));
                    assert(expanded@.take(j + 1).map_values(wrap) =~= expanded@.take(
                        j as int,
                    ).map_values(wrap).push(wrap(expanded@[j as int])));
                    j += 1;
                }
                assert(expanded@.take(j as int) =~= expanded@);
                assert(one(fields@[i as int]) == expanded@.map_values(wrap));
            },
        }
        i += 1;
    }
    assert(fields@.take(i as int) =~= fields@);
    res
}

/// Expansion goes entry by entry: the columns of two selections put together
/// are the columns of the first followed by the columns of the second.
pub proof fn lemma_expand_fields_concat<F: FieldId, A: AggField<F>>(
    first: Seq<DumpOptionField<F, A>>,
    second: Seq<DumpOptionField<F, A>>,
    detail: bool,
)
    ensures
        spec_expand_fields(first + second, detail) == spec_expand_fields(first, detail)
            + spec_expand_fields(second, detail),
{
    let one = |field: DumpOptionField<F, A>| spec_expand_one(field, detail);
    assert((first + second).map_values(one) =~= first.map_values(one) + second.map_values(one));
    lemma_flatten_concat(first.map_values(one), second.map_values(one));
}

/// A selection of one entry expands to the columns of that entry.
pub proof fn lemma_expand_fields_single<F: FieldId, A: AggField<F>>(
    field: DumpOptionField<F, A>,
    detail: bool,
)
    ensures
        spec_expand_fields(seq![field], detail) == spec_expand_one(field, detail),
{
    let one = |field: DumpOptionField<F, A>| spec_expand_one(field, detail);
    seq![field].lemma_flat_map_singleton(one);
}

/// Expansion keeps the order of the selection: a group between two single
/// columns gives the first column, then the leaf fields of the group in the
/// group's own order, then the second column.
pub proof fn lemma_expand_keeps_order<F: FieldId, A: AggField<F>>(
    before: DumpField<F>,
    agg: A,
    after: DumpField<F>,
    detail: bool,
)
    ensures
        spec_expand_fields(
            seq![
                DumpOptionField::<F, A>::Unit(before),
                DumpOptionField::Agg(agg),
                DumpOptionField::Unit(after),
            ],
            detail,
        ) == seq![before] + agg.spec_expand(detail).map_values(
            |field_id: F| DumpField::FieldId(field_id),
        ) + seq![after],
{
    let a = DumpOptionField::<F, A>::Unit(before);
    let b = DumpOptionField::<F, A>::Agg(agg);
    let c = DumpOptionField::<F, A>::Unit(after);
    assert(seq![a, b, c] =~= seq![a] + seq![b] + seq![c]);
    lemma_expand_fields_concat(seq![a] + seq![b], seq![c], detail);
    lemma_expand_fields_concat(seq![a], seq![b], detail);
    lemma_expand_fields_single(a, detail);
    lemma_expand_fields_single(b, detail);
    lemma_expand_fields_single(c, detail);
}

/// Expansion removes nothing: a group selected twice gives its leaf fields
/// twice, in the same order both times.
pub proof fn lemma_expand_keeps_duplicates<F: FieldId, A: AggField<F>>(agg: A, detail: bool)
    ensures
        spec_expand_fields(
            seq![DumpOptionField::<F, A>::Agg(agg), DumpOptionField::Agg(agg)],
            detail,
        ) == agg.spec_expand(detail).map_values(|field_id: F| DumpField::FieldId(field_id))
            + agg.spec_expand(detail).map_values(|field_id: F| DumpField::FieldId(field_id)),
{
    let a = DumpOptionField::<F, A>::Agg(agg);
    assert(seq![a, a] =~= seq![a] + seq![a]);
    lemma_expand_fields_concat(seq![a], seq![a], detail);
    lemma_expand_fields_single(a, detail);
}

/// The names of `items`, in order.
pub open spec fn names_of<T: Named>(items: Seq<T>) -> Seq<Seq<char>> {
    items.map_values(|item: T| item.name())
}

/// The names of `items` in order, separated by a comma and a space.
pub open spec fn spec_join<T: Named>(items: Seq<T>) -> Seq<char> {
    join_with(names_of(items), ", "@)
}

/// Joins the names of `items` with ", ". Used to list fields in help texts.
pub fn join<T: Named>(items: &[T]) -> (r: String)
    ensures
        r@ == spec_join(items@),
{
    let mut text = String::new();
    let mut i: usize = 0;
    assert(names_of(items@.take(0)) =~= Seq::empty());
    while i < items.len()
        invariant
            i <= items.len(),
            text@ == spec_join(items@.take(i as int)),
        decreases items.len() - i,
    {
        let ghost done = names_of(items@.take(i as int));
        let ghost next = names_of(items@.take(i + 1));
        assert(next.drop_last() =~= done);
        assert(next.last() == items@[i as int].name());
        if i > 0 {
            text.append(", ");
        }
        let name = items[i].to_string();
        text.append(name.as_str());
        assert(text@ =~= join_with(next, ", "@));
        i += 1;
    }
    assert(items@.take(i as int) =~= items@);
    text
}

} // verus!
