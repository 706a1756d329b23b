//! The fields that every domain shares, the leaf fields and the groups of one
//! domain, and the resolution of a token to one of them.

use crate::catalog::{
    lemma_lookup_apart, lemma_lookup_by_name, lemma_lookup_ignores_case, lookup, spec_lookup,
    Catalog, Named,
};
use crate::error::DumpError;
use crate::text::{lemma_spell, same_name};
use vstd::prelude::*;

verus! {

/// A leaf field of some domain: a closed set of named identifiers.
pub trait FieldId: Catalog {

}

/// Fields available in every domain.
#[derive(Clone, Copy, Debug, PartialEq, Eq, Hash, Structural)]
pub enum CommonField {
    Timestamp,
    Datetime,
}

impl Named for CommonField {
    open spec fn name(&self) -> Seq<char> {
        match self {
            CommonField::Timestamp => "timestamp"@,
            CommonField::Datetime => "datetime"@,
        }
    }

    fn to_string(&self) -> String {
        match self {
            CommonField::Timestamp => "timestamp".to_owned(),
            CommonField::Datetime => "datetime".to_owned(),
        }
    }
}

impl Catalog for CommonField {
    open spec fn spec_all() -> Seq<Self> {
        seq![CommonField::Timestamp, CommonField::Datetime]
    }

    fn all() -> Vec<Self> {
        vec![CommonField::Timestamp, CommonField::Datetime]
    }

    proof fn lemma_listed(self) {
        let all = Self::spec_all();
        match self {
            CommonField::Timestamp => assert(all[0] == self),
            CommonField::Datetime => assert(all[1] == self),
        }
    }

    proof fn lemma_names(self, other: Self) {
        lemma_spell(self.name());
        lemma_spell(other.name());
        reveal_strlit("timestamp");
        reveal_strlit("datetime");
    }
}

/// One column of the output: a field shared by all domains, or a leaf field
/// of the domain `F`.
#[derive(Clone, Copy, Debug, PartialEq, Eq)]
pub enum DumpField<F: FieldId> {
    Common(CommonField),
    FieldId(F),
}

impl<F: FieldId> Named for DumpField<F> {
    open spec fn name(&self) -> Seq<char> {
        match self {
            DumpField::Common(common) => common.name(),
            DumpField::FieldId(field_id) => field_id.name(),
        }
    }

    fn to_string(&self) -> String {
        match self {
            DumpField::Common(common) => common.to_string(),
            DumpField::FieldId(field_id) => field_id.to_string(),
        }
    }
}

/// A group of related leaf fields of one domain: a shorthand that stands for
/// an ordered, non-empty list of them.
pub trait AggField<F: FieldId>: Sized {
    /// The leaf fields that the group stands for, in order: the curated
    /// selection, or with `detail` the full one.
    spec fn spec_expand(&self, detail: bool) -> Seq<F>;

    fn expand(&self, detail: bool) -> (r: Vec<F>)
        ensures
            r@ == self.spec_expand(detail),
            r@.len() > 0,
            forall|i: int| 0 <= i < r@.len() ==> F::spec_all().contains(#[trigger] r@[i]),
    ;
}

/// What one token of a field selection stands for: a single column, or a
/// group of leaf fields.
#[derive(Clone, Copy, Debug, PartialEq, Eq)]
pub enum DumpOptionField<F: FieldId, A: AggField<F>> {
    Unit(DumpField<F>),
    Agg(A),
}

impl<F: FieldId, A: AggField<F> + Catalog> DumpOptionField<F, A> {
    /// What `token` resolves to. Common fields come first, then groups, then
    /// leaf fields: the first set in which the token names something decides.
    pub open spec fn spec_from_str(token: Seq<char>) -> Option<Self> {
        match spec_lookup::<CommonField>(token) {
            Some(common) => Some(DumpOptionField::Unit(DumpField::Common(common))),
            None => match spec_lookup::<A>(token) {
                Some(agg) => Some(DumpOptionField::Agg(agg)),
                None => match spec_lookup::<F>(token) {
                    Some(field_id) => Some(DumpOptionField::Unit(DumpField::FieldId(field_id))),
                    None => None,
                },
            },
        }
    }

    /// Resolves one token of a field selection, ignoring letter case.
    pub fn from_str(s: &str) -> (r: Result<Self, DumpError>)
        ensures
            match r {
                Ok(field) => Self::spec_from_str(s@) == Some(field),
                Err(error) => {
                    &&& Self::spec_from_str(s@) is None
                    &&& error matches DumpError::UnrecognizedField(token)
                    &&& token@ == s@
                },
            },
    {
        if let Some(common) = lookup::<CommonField>(s) {
            Ok(DumpOptionField::Unit(DumpField::Common(common)))
        } else if let Some(agg) = lookup::<A>(s) {
            Ok(DumpOptionField::Agg(agg))
        } else if let Some(field_id) = lookup::<F>(s) {
            Ok(DumpOptionField::Unit(DumpField::FieldId(field_id)))
        } else {
            Err(DumpError::UnrecognizedField(s.to_owned()))
        }
    }
}

impl<F: FieldId, A: AggField<F> + Named> Named for DumpOptionField<F, A> {
    /// A group is shown under its own name, not as the fields it stands for.
    open spec fn name(&self) -> Seq<char> {
        match self {
            DumpOptionField::Unit(field) => field.name(),
            DumpOptionField::Agg(agg) => agg.name(),
        }
    }

    fn to_string(&self) -> String {
        match self {
            DumpOptionField::Unit(DumpField::Common(common)) => common.to_string(),
            DumpOptionField::Unit(DumpField::FieldId(field_id)) => field_id.to_string(),
            DumpOptionField::Agg(agg) => agg.to_string(),
        }
    }
}

/// The entry at `i` is the first of `tokens` that resolves to nothing.
pub open spec fn is_first_unrecognized<F: FieldId, A: AggField<F> + Catalog>(
    tokens: Seq<String>,
    i: int,
) -> bool {
    &&& 0 <= i < tokens.len()
    &&& DumpOptionField::<F, A>::spec_from_str(tokens[i]@) is None
    &&& forall|j: int|
        #![trigger tokens[j]]
        0 <= j < i ==> DumpOptionField::<F, A>::spec_from_str(tokens[j]@) is Some
}

/// Resolves the tokens of a field selection, in order. The selection is
/// accepted as a whole or rejected as a whole: the first token that resolves
/// to nothing rejects it.
pub fn parse_fields<F: FieldId, A: AggField<F> + Catalog>(tokens: &[String]) -> (r: Result<
    Vec<DumpOptionField<F, A>>,
    DumpError,
>)
    ensures
        match r {
            Ok(fields) => {
                &&& fields@.len() == tokens@.len()
                &&& forall|i: int|
                    #![trigger tokens@[i]]
                    #![trigger fields@[i]]
                    0 <= i < tokens@.len() ==> DumpOptionField::<F, A>::spec_from_str(tokens@[i]@)
                        == Some(fields@[i])
            },
            Err(error) => exists|i: int|
                {
                    &&& #[trigger] is_first_unrecognized::<F, A>(tokens@, i)
                    &&& error matches DumpError::UnrecognizedField(token)
                    &&& token@ == tokens@[i]@
                },
        },
{
    let mut fields: Vec<DumpOptionField<F, A>> = Vec::new();
    let mut i: usize = 0;
    while i < tokens.len()
        invariant
            i <= tokens.len(),
            fields@.len() == i,
            forall|j: int|
                #![trigger tokens@[j]]
                #![trigger fields@[j]]
                0 <= j < i ==> DumpOptionField::<F, A>::spec_from_str(tokens@[j]@) == Some(
                    fields@[j],
                ),
        decreases tokens.len() - i,
    {
        match DumpOptionField::<F, A>::from_str(tokens[i].as_str()) {
            Ok(field) => fields.push(field),
            Err(error) => {
                assert(is_first_unrecognized::<F, A>(tokens@, i as int));
                return Err(error);
            },
        }
        i += 1;
    }
    Ok(fields)
}

/// A token that names a common field resolves to that common field, whatever
/// groups and leaf fields of the domain have the same name.
pub proof fn lemma_common_field_wins<F: FieldId, A: AggField<F> + Catalog>(token: Seq<char>)
    requires
        spec_lookup::<CommonField>(token) is Some,
    ensures
        DumpOptionField::<F, A>::spec_from_str(token) == Some(
            DumpOptionField::<F, A>::Unit(DumpField::Common(spec_lookup::<CommonField>(token)->0)),
        ),
{
}

/// A token that names no common field but a group resolves to that group,
/// whatever leaf field of the domain has the same name.
pub proof fn lemma_group_wins_over_leaf<F: FieldId, A: AggField<F> + Catalog>(token: Seq<char>)
    requires
        spec_lookup::<CommonField>(token) is None,
        spec_lookup::<A>(token) is Some,
    ensures
        DumpOptionField::<F, A>::spec_from_str(token) == Some(
            DumpOptionField::<F, A>::Agg(spec_lookup::<A>(token)->0),
        ),
{
}

/// No two of the common fields, the groups and the leaf fields of a domain
/// share a name, so that no name of the domain is shadowed.
pub open spec fn names_apart<F: FieldId, A: AggField<F> + Catalog>() -> bool {
    &&& forall|common: CommonField, agg: A| #![trigger common.name(), agg.name()]
        common.name() != agg.name()
    &&& forall|common: CommonField, field_id: F| #![trigger common.name(), field_id.name()]
        common.name() != field_id.name()
    &&& forall|agg: A, field_id: F| #![trigger agg.name(), field_id.name()]
        agg.name() != field_id.name()
}

/// In a domain whose names are apart, the name of every common field, group
/// and leaf field resolves to that same field or group: rendering and
/// resolving give it back.
pub proof fn lemma_names_resolve<F: FieldId, A: AggField<F> + Catalog>(
    option: DumpOptionField<F, A>,
)
    requires
        names_apart::<F, A>(),
    ensures
        DumpOptionField::<F, A>::spec_from_str(option.name()) == Some(option),
{
    let token = option.name();
    match option {
        DumpOptionField::Unit(DumpField::Common(common)) => {
            lemma_lookup_by_name::<CommonField>(token, common);
        },
        DumpOptionField::Agg(agg) => {
            lemma_lookup_by_name::<A>(token, agg);
            lemma_lookup_apart::<A, CommonField>(agg);
        },
        DumpOptionField::Unit(DumpField::FieldId(field_id)) => {
            lemma_lookup_by_name::<F>(token, field_id);
            lemma_lookup_apart::<F, CommonField>(field_id);
            lemma_lookup_apart::<F, A>(field_id);
        },
    }
}

/// The resolution of a token never depends on its letter case.
pub proof fn lemma_from_str_ignores_case<F: FieldId, A: AggField<F> + Catalog>(
    a: Seq<char>,
    b: Seq<char>,
)
    requires
        same_name(a, b),
    ensures
        DumpOptionField::<F, A>::spec_from_str(a) == DumpOptionField::<F, A>::spec_from_str(b),
{
    lemma_lookup_ignores_case::<CommonField>(a, b);
    lemma_lookup_ignores_case::<A>(a, b);
    lemma_lookup_ignores_case::<F>(a, b);
}

} // verus!
