//! The long description of a domain's command, built from the domain's own
//! definitions so that it lists exactly the fields and groups that exist.

use crate::catalog::{Catalog, Named};
use crate::expand::{join, names_of, spec_join};
use crate::field::{AggField, CommonField, DumpOptionField, FieldId};
use crate::text::{lemma_join_holds_each, lemma_occurs_in_middle, lemma_occurs_in_self, occurs_in};
use vstd::prelude::*;
use vstd::string::StringExecFns;

verus! {

pub const FIELDS_HEADER: &'static str =
    "\n\n********************** Available fields **********************\n\n";

pub const GROUPS_HEADER: &'static str =
    "\n\n********************** Aggregated fields **********************\n\n";

pub const EVERYTHING_NOTE: &'static str =
    "].\n\n* --everything: includes everything (equivalent to --default --detail).\n\n";

pub const EXAMPLES_HEADER: &'static str =
    "********************** Example Commands **********************\n\n";

/// The detail flag widens the groups of the domain.
pub const DETAIL_WIDENS: &'static str =
    "includes [<agg_field>.*] for each given aggregated field.";

/// The detail flag changes nothing in the domain.
pub const DETAIL_NO_EFFECT: &'static str = "no effect.";

/// The entry of one group: its name and the fields of its curated selection.
pub open spec fn spec_group_entry<F: FieldId, A: AggField<F> + Named>(agg: A) -> Seq<char> {
    "* "@ + agg.name() + ": includes ["@ + spec_join(agg.spec_expand(false)) + "].\n\n"@
}

/// The entries of `groups`, in order.
pub open spec fn spec_group_entries<F: FieldId, A: AggField<F> + Named>(groups: Seq<A>) -> Seq<
    char,
>
    decreases groups.len(),
{
    if groups.len() == 0 {
        Seq::empty()
    } else {
        spec_group_entries::<F, A>(groups.drop_last()) + spec_group_entry::<F, A>(groups.last())
    }
}

/// The long description of a domain: its summary, the names of all fields
/// that can be selected, each group with its curated selection, what the
/// detail flag does, the default selection, and examples.
pub open spec fn spec_long_about<F: FieldId, A: AggField<F> + Catalog>(
    about: Seq<char>,
    detail_note: Seq<char>,
    defaults: Seq<DumpOptionField<F, A>>,
    examples: Seq<char>,
) -> Seq<char> {
    about + FIELDS_HEADER@ + spec_join(CommonField::spec_all()) + ", "@ + spec_join(
        F::spec_all(),
    ) + GROUPS_HEADER@ + spec_group_entries::<F, A>(A::spec_all()) + "* --detail: "@ + detail_note
        + "\n\n* --default: includes ["@ + spec_join(defaults) + EVERYTHING_NOTE@
        + EXAMPLES_HEADER@ + examples
}

/// Builds the long description of a domain from the domain's definitions.
pub fn long_about<F: FieldId, A: AggField<F> + Catalog>(
    about: &str,
    detail_note: &str,
    defaults: &[DumpOptionField<F, A>],
    examples: &str,
) -> (r: String)
    ensures
        r@ == spec_long_about::<F, A>(about@, detail_note@, defaults@, examples@),
{
    let mut text = about.to_owned();
    text.append(FIELDS_HEADER);
    let common = CommonField::all();
    text.append(join(common.as_slice()).as_str());
    text.append(", ");
    let fields = F::all();
    text.append(join(fields.as_slice()).as_str());
    text.append(GROUPS_HEADER);
    let ghost head = text@;
    let groups = A::all();
    let mut i: usize = 0;
    assert(groups@.take(0) =~= Seq::empty());
    assert(text@ =~= head + spec_group_entries::<F, A>(groups@.take(0)));
    while i < groups.len()
        invariant
            i <= groups.len(),
            text@ == head + spec_group_entries::<F, A>(groups@.take(i as int)),
        decreases groups.len() - i,
    {
        let ghost done = groups@.take(i as int);
        let ghost next = groups@.take(i + 1);
        assert(next.drop_last() =~= done);
        assert(next.last() == groups@[i as int]);
        text.append("* ");
        text.append(groups[i].to_string().as_str());
        text.append(": includes [");
        let curated = groups[i].expand(false);
        text.append(join(curated.as_slice()).as_str());
        text.append("].\n\n");
        assert(text@ =~= head + spec_group_entries::<F, A>(next));
        i += 1;
    }
    assert(groups@.take(i as int) =~= groups@);
    text.append("* --detail: ");
    text.append(detail_note);
    text.append("\n\n* --default: includes [");
    text.append(join(defaults).as_str());
    text.append(EVERYTHING_NOTE);
    text.append(EXAMPLES_HEADER);
    text.append(examples);
    text
}

/// The entries of a list of groups hold the name of each of them.
proof fn lemma_entries_hold_each<F: FieldId, A: AggField<F> + Named>(groups: Seq<A>, k: int)
    requires
        0 <= k < groups.len(),
    ensures
        occurs_in(groups[k].name(), spec_group_entries::<F, A>(groups)),
    decreases groups.len(),
{
    let front = spec_group_entries::<F, A>(groups.drop_last());
    let last = groups.last();
    if k == groups.len() - 1 {
        let name = last.name();
        let tail = ": includes ["@ + spec_join(last.spec_expand(false)) + "].\n\n"@;
        lemma_occurs_in_self(name);
        lemma_occurs_in_middle(name, front + "* "@, name, tail);
        assert(front + "* "@ + name + tail =~= front + spec_group_entry::<F, A>(last));
    } else {
        lemma_entries_hold_each::<F, A>(groups.drop_last(), k);
        lemma_occurs_in_middle(
            groups[k].name(),
            Seq::empty(),
            front,
            spec_group_entry::<F, A>(last),
        );
        assert(Seq::<char>::empty() + front + spec_group_entry::<F, A>(last) =~= front
            + spec_group_entry::<F, A>(last));
    }
}

/// The long description of a domain names every leaf field of the domain.
pub proof fn lemma_long_about_names_every_field<F: FieldId, A: AggField<F> + Catalog>(
    about: Seq<char>,
    detail_note: Seq<char>,
    defaults: Seq<DumpOptionField<F, A>>,
    examples: Seq<char>,
    field_id: F,
)
    ensures
        occurs_in(field_id.name(), spec_long_about::<F, A>(about, detail_note, defaults, examples)),
{
    let all = F::spec_all();
    field_id.lemma_listed();
    let k = choose|k: int| 0 <= k < all.len() && all[k] == field_id;
    assert(names_of(all)[k] == field_id.name());
    lemma_join_holds_each(names_of(all), ", "@, k);
    let before = about + FIELDS_HEADER@ + spec_join(CommonField::spec_all()) + ", "@;
    let after = GROUPS_HEADER@ + spec_group_entries::<F, A>(A::spec_all()) + "* --detail: "@
        + detail_note + "\n\n* --default: includes ["@ + spec_join(defaults) + EVERYTHING_NOTE@
        + EXAMPLES_HEADER@ + examples;
    lemma_occurs_in_middle(field_id.name(), before, spec_join(all), after);
    assert(before + spec_join(all) + after =~= spec_long_about::<F, A>(
        about,
        detail_note,
        defaults,
        examples,
    ));
}

/// The long description of a domain names every group of the domain.
pub proof fn lemma_long_about_names_every_group<F: FieldId, A: AggField<F> + Catalog>(
    about: Seq<char>,
    detail_note: Seq<char>,
    defaults: Seq<DumpOptionField<F, A>>,
    examples: Seq<char>,
    agg: A,
)
    ensures
        occurs_in(agg.name(), spec_long_about::<F, A>(about, detail_note, defaults, examples)),
{
    let all = A::spec_all();
    agg.lemma_listed();
    let k = choose|k: int| 0 <= k < all.len() && all[k] == agg;
    lemma_entries_hold_each::<F, A>(all, k);
    let before = about + FIELDS_HEADER@ + spec_join(CommonField::spec_all()) + ", "@ + spec_join(
        F::spec_all(),
    ) + GROUPS_HEADER@;
    let after = "* --detail: "@ + detail_note + "\n\n* --default: includes ["@ + spec_join(
        defaults,
    ) + EVERYTHING_NOTE@ + EXAMPLES_HEADER@ + examples;
    lemma_occurs_in_middle(agg.name(), before, spec_group_entries::<F, A>(all), after);
    assert(before + spec_group_entries::<F, A>(all) + after =~= spec_long_about::<F, A>(
        about,
        detail_note,
        defaults,
        examples,
    ));
}

} // verus!
