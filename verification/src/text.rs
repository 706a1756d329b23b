//! Names as character sequences: ASCII case folding, case-insensitive
//! matching, and containment of one text in another.

use vstd::prelude::*;

verus! {

/// The ASCII lower-case form of a character: `A`..`Z` map to `a`..`z`, every
/// other character maps to itself.
pub open spec fn lower_char(c: char) -> char {
    if 'A' <= c && c <= 'Z' {
        ((c as u8) + 32) as char
    } else {
        c
    }
}

/// The ASCII lower-case form of a text, character by character.
pub open spec fn lower(s: Seq<char>) -> Seq<char> {
    Seq::new(s.len(), |i: int| lower_char(s[i]))
}

/// A text is lower-case when folding leaves it unchanged, that is when it
/// holds none of `A`..`Z`.
pub open spec fn is_lower(s: Seq<char>) -> bool {
    forall|i: int| 0 <= i < s.len() ==> !('A' <= #[trigger] s[i] && s[i] <= 'Z')
}

/// Two texts name the same thing when they are equal up to ASCII letter case.
pub open spec fn same_name(a: Seq<char>, b: Seq<char>) -> bool {
    lower(a) == lower(b)
}

/// Folds one character to ASCII lower case.
pub fn to_lower_char(c: char) -> (r: char)
    ensures
        r == lower_char(c),
{
    if 'A' <= c && c <= 'Z' {
        ((c as u8) + 32) as char
    } else {
        c
    }
}

/// Compares two texts up to ASCII letter case.
pub fn eq_ignore_case(a: &str, b: &str) -> (r: bool)
    ensures
        r == same_name(a@, b@),
{
    let n = a.unicode_len();
    if n != b.unicode_len() {
        assert(lower(a@).len() != lower(b@).len());
        return false;
    }
    let mut i: usize = 0;
    while i < n
        invariant
            i <= n,
            n == a@.len(),
            n == b@.len(),
            forall|j: int| 0 <= j < i ==> lower_char(a@[j]) == lower_char(b@[j]),
        decreases n - i,
    {
        if to_lower_char(a.get_char(i)) != to_lower_char(b.get_char(i)) {
            assert(lower(a@)[i as int] != lower(b@)[i as int]);
            return false;
        }
        i += 1;
    }
    assert(lower(a@) =~= lower(b@));
    true
}

/// Compares two texts character by character.
pub fn same_text(a: &str, b: &str) -> (r: bool)
    ensures
        r == (a@ == b@),
{
    let n = a.unicode_len();
    if n != b.unicode_len() {
        return false;
    }
    let mut i: usize = 0;
    while i < n
        invariant
            i <= n,
            n == a@.len(),
            n == b@.len(),
            forall|j: int| 0 <= j < i ==> a@[j] == b@[j],
        decreases n - i,
    {
        if a.get_char(i) != b.get_char(i) {
            return false;
        }
        i += 1;
    }
    assert(a@ =~= b@);
    true
}

/// The lower-case form of a text by the rules of Unicode, which may be longer
/// than the text.
pub uninterp spec fn unicode_lowercase(text: Seq<char>) -> Seq<char>;

/// `str::to_lowercase` of the standard library: the lower-case form of a text
/// by the rules of Unicode, a function of the text alone.
#[verifier::external_body]
pub(crate) fn to_lowercase(text: &str) -> (r: String)
    ensures
        r@ == unicode_lowercase(text@),
{
    text.to_lowercase()
}

/// Holds of every character. It serves to bring characters into view.
pub closed spec fn seen(c: char) -> bool {
    true
}

/// Brings the length and the first 32 characters of a text into view, which
/// is all of them for every name here. Two names that are spelled out
/// differently are then seen to differ.
pub proof fn lemma_spell(text: Seq<char>)
    ensures
        text.len() >= 0,
        seen(text[0]), seen(text[1]), seen(text[2]), seen(text[3]),
        seen(text[4]), seen(text[5]), seen(text[6]), seen(text[7]),
        seen(text[8]), seen(text[9]), seen(text[10]), seen(text[11]),
        seen(text[12]), seen(text[13]), seen(text[14]), seen(text[15]),
        seen(text[16]), seen(text[17]), seen(text[18]), seen(text[19]),
        seen(text[20]), seen(text[21]), seen(text[22]), seen(text[23]),
        seen(text[24]), seen(text[25]), seen(text[26]), seen(text[27]),
        seen(text[28]), seen(text[29]), seen(text[30]), seen(text[31]),
{
}

/// Brings the length and the first 12 characters of a text into view, which
/// is more than the name of a sub-model and the dot after it.
pub proof fn lemma_spell_beginning(text: Seq<char>)
    ensures
        text.len() >= 0,
        seen(text[0]), seen(text[1]), seen(text[2]), seen(text[3]),
        seen(text[4]), seen(text[5]), seen(text[6]), seen(text[7]),
        seen(text[8]), seen(text[9]), seen(text[10]), seen(text[11]),
{
}

/// What follows a common beginning decides whether two texts are equal.
pub proof fn lemma_same_beginning(begin: Seq<char>, a: Seq<char>, b: Seq<char>)
    requires
        begin + a == begin + b,
    ensures
        a == b,
{
    assert(a.len() == b.len()) by {
        assert((begin + a).len() == begin.len() + a.len());
        assert((begin + b).len() == begin.len() + b.len());
    }
    assert forall|i: int| 0 <= i < a.len() implies a[i] == b[i] by {
        assert((begin + a)[begin.len() + i] == a[i]);
        assert((begin + b)[begin.len() + i] == b[i]);
    }
    assert(a =~= b);
}

/// Folding a lower-case text gives the text back.
pub proof fn lemma_lower_of_lower(s: Seq<char>)
    requires
        is_lower(s),
    ensures
        lower(s) == s,
{
    assert(lower(s) =~= s);
}

/// Two lower-case texts match only when they are equal.
pub proof fn lemma_same_name_of_lower(a: Seq<char>, b: Seq<char>)
    requires
        is_lower(a),
        is_lower(b),
    ensures
        same_name(a, b) <==> a == b,
{
    lemma_lower_of_lower(a);
    lemma_lower_of_lower(b);
}

/// The concatenation of lower-case texts is lower-case.
pub proof fn lemma_lower_concat(a: Seq<char>, b: Seq<char>)
    requires
        is_lower(a),
        is_lower(b),
    ensures
        is_lower(a + b),
{
    assert forall|i: int| 0 <= i < (a + b).len() implies !('A' <= #[trigger] (a + b)[i] && (a
        + b)[i] <= 'Z') by {
        if i < a.len() {
            assert((a + b)[i] == a[i]);
        } else {
            assert((a + b)[i] == b[i - a.len()]);
        }
    }
}

/// The texts of `parts` in order, with `sep` between each two neighbours.
pub open spec fn join_with(parts: Seq<Seq<char>>, sep: Seq<char>) -> Seq<char>
    decreases parts.len(),
{
    if parts.len() == 0 {
        Seq::empty()
    } else if parts.len() == 1 {
        parts[0]
    } else {
        join_with(parts.drop_last(), sep) + sep + parts.last()
    }
}

/// `part` occurs in `text` as a run of consecutive characters.
pub open spec fn occurs_in(part: Seq<char>, text: Seq<char>) -> bool {
    exists|i: int|
        0 <= i && i + part.len() <= text.len() && #[trigger] text.subrange(i, i + part.len())
            == part
}

/// Every text occurs in itself.
pub proof fn lemma_occurs_in_self(text: Seq<char>)
    ensures
        occurs_in(text, text),
{
    assert(text.subrange(0, 0 + text.len() as int) =~= text);
}

/// What occurs in a text occurs in every text built around it.
pub proof fn lemma_occurs_in_middle(
    part: Seq<char>,
    before: Seq<char>,
    text: Seq<char>,
    after: Seq<char>,
)
    requires
        occurs_in(part, text),
    ensures
        occurs_in(part, before + text + after),
{
    let i = choose|i: int|
        0 <= i && i + part.len() <= text.len() && #[trigger] text.subrange(i, i + part.len())
            == part;
    let whole = before + text + after;
    let k = before.len() + i;
    assert(whole.subrange(k, k + part.len()) =~= text.subrange(i, i + part.len()));
}

/// Each of the joined texts occurs in the result.
pub proof fn lemma_join_holds_each(parts: Seq<Seq<char>>, sep: Seq<char>, k: int)
    requires
        0 <= k < parts.len(),
    ensures
        occurs_in(parts[k], join_with(parts, sep)),
    decreases parts.len(),
{
    if parts.len() == 1 {
        lemma_occurs_in_self(parts[0]);
    } else {
        let front = join_with(parts.drop_last(), sep);
        if k == parts.len() - 1 {
            lemma_occurs_in_self(parts.last());
            lemma_occurs_in_middle(parts.last(), front + sep, parts.last(), Seq::empty());
            assert(front + sep + parts.last() + Seq::<char>::empty() =~= front + sep
                + parts.last());
        } else {
            lemma_join_holds_each(parts.drop_last(), sep, k);
            lemma_occurs_in_middle(parts[k], Seq::empty(), front, sep + parts.last());
            assert(Seq::<char>::empty() + front + (sep + parts.last()) =~= front + sep
                + parts.last());
        }
    }
}

} // verus!
