//! Properties that hold of everything the generators produce.

use vstd::prelude::*;
use crate::code::{error_code, lemma_error_code_injective};
use crate::container::first_bad_variant;
use crate::description::TypeDescription;
use crate::error::GenerateError;
use crate::leaf::{
    declared_description,
    description_text,
    first_variant_error,
    is_value_of,
    leaf_bundle_for,
    leaf_error,
    namespace,
    prefix_of,
    rule_for,
    variant_error,
    LeafBundle,
};
use crate::metadata::lookup;
use crate::pretty::{ErrorValue, PrettyError, Wrapped};

verus! {

/// In a generated leaf bundle the variant at 0-based position `i` has the code
/// `PREFIX-NNN` with `NNN` = `i + 1` zero-padded to three digits, and no two
/// variants share a code.
pub proof fn lemma_leaf_codes(td: TypeDescription, b: LeafBundle)
    requires
        leaf_bundle_for(b, td),
    ensures
        forall|i: int|
            0 <= i < b.rules@.len() ==> (#[trigger] b.rules@[i]).code@ == error_code(
                prefix_of(td),
                (i + 1) as nat,
            ),
        forall|i: int, j: int|
            0 <= i < b.rules@.len() && 0 <= j < b.rules@.len() && i != j ==> (
            #[trigger] b.rules@[i]).code@ != (#[trigger] b.rules@[j]).code@,
{
    assert forall|i: int|
        0 <= i < b.rules@.len() implies (#[trigger] b.rules@[i]).code@ == error_code(
            prefix_of(td),
            (i + 1) as nat,
        ) by {
        assert(rule_for(b.rules@[i], prefix_of(td), td.variants@[i], i));
    }
    assert forall|i: int, j: int|
        0 <= i < b.rules@.len() && 0 <= j < b.rules@.len() && i != j implies (
        #[trigger] b.rules@[i]).code@ != (#[trigger] b.rules@[j]).code@ by {
        assert(rule_for(b.rules@[i], prefix_of(td), td.variants@[i], i));
        assert(rule_for(b.rules@[j], prefix_of(td), td.variants@[j], j));
        if b.rules@[i].code@ == b.rules@[j].code@ {
            lemma_error_code_injective(prefix_of(td), (i + 1) as nat, (j + 1) as nat);
        }
    }
}

/// A generated description is the declared text followed by exactly one
/// added period, whatever the declared text ends with.
pub proof fn lemma_leaf_description(td: TypeDescription, b: LeafBundle, i: int)
    requires
        leaf_bundle_for(b, td),
        0 <= i < b.rules@.len(),
    ensures
        b.rules@[i].description@.len() == declared_description(td.variants@[i]).len() + 1,
        b.rules@[i].description@.drop_last() == declared_description(td.variants@[i]),
        b.rules@[i].description@.last() == '.',
{
    assert(rule_for(b.rules@[i], prefix_of(td), td.variants@[i], i));
    let d = declared_description(td.variants@[i]);
    assert(description_text(d).drop_last() =~= d);
}

/// A leaf value renders as `(CODE): DESC` when its variant has no payload, and
/// as `(CODE): DESC Detailed Error: DETAIL` when it has one, where DESC already
/// ends in the added period.
pub proof fn lemma_leaf_display(
    td: TypeDescription,
    b: LeafBundle,
    i: int,
    v: ErrorValue,
    detail: Option<Seq<char>>,
)
    requires
        leaf_bundle_for(b, td),
        0 <= i < b.rules@.len(),
        is_value_of(v, b, i, detail),
    ensures
        ({
            let code = error_code(prefix_of(td), (i + 1) as nat);
            let desc = declared_description(td.variants@[i]) + seq!['.'];
            &&& detail is None ==> v.display_view() == "("@ + code + "): "@ + desc
            &&& detail is Some ==> v.display_view() == "("@ + code + "): "@ + desc
                + " Detailed Error: "@ + detail->Some_0
        }),
{
    assert(rule_for(b.rules@[i], prefix_of(td), td.variants@[i], i));
}

/// A container value shows exactly what the value it wraps shows: the same
/// code, the same description and the same rendering, whatever the wrapped
/// error type.
pub proof fn lemma_container_delegates<E: PrettyError>(w: Wrapped<E>)
    ensures
        w.code_view() == w.inner.code_view(),
        w.description_view() == w.inner.description_view(),
        w.display_view() == w.inner.display_view(),
{
}

/// A leaf type whose variant `k` has no description fails with
/// `MissingDescription` at `k`, provided nothing is found wrong before it: the
/// type's prefix is given once and the earlier variants are sound.
pub proof fn lemma_missing_description(td: TypeDescription, k: int)
    requires
        0 <= k < td.variants@.len(),
        lookup(td.meta@, namespace(), "prefix"@) is Found,
        lookup(td.variants@[k].meta@, namespace(), "description"@) is Absent,
        forall|j: int| 0 <= j < k ==> (#[trigger] variant_error(td.variants@[j], j)) is None,
    ensures
        leaf_error(td) == Some(GenerateError::MissingDescription { variant: k as usize }),
{
    lemma_first_error_from(td, 0, k);
}

proof fn lemma_first_error_from(td: TypeDescription, i: int, k: int)
    requires
        0 <= i <= k < td.variants@.len(),
        variant_error(td.variants@[k], k) is Some,
        forall|j: int| 0 <= j < k ==> (#[trigger] variant_error(td.variants@[j], j)) is None,
    ensures
        first_variant_error(td.variants@, i) == variant_error(td.variants@[k], k),
    decreases k - i,
{
    if i < k {
        assert(variant_error(td.variants@[i], i) is None);
        lemma_first_error_from(td, i + 1, k);
    }
}

/// A container type with a variant that carries no field fails with
/// `RequiresSingleField`, at that variant or at an earlier one.
pub proof fn lemma_unit_variant_rejected(td: TypeDescription, k: int)
    requires
        0 <= k < td.variants@.len(),
        td.variants@[k].fields is Unit,
    ensures
        first_bad_variant(td, 0) is Some,
        first_bad_variant(td, 0)->Some_0 <= k,
{
    lemma_bad_variant_found(td, 0, k);
}

proof fn lemma_bad_variant_found(td: TypeDescription, i: int, k: int)
    requires
        0 <= i <= k < td.variants@.len(),
        td.variants@[k].fields is Unit,
    ensures
        first_bad_variant(td, i) is Some,
        first_bad_variant(td, i)->Some_0 <= k,
    decreases k - i,
{
    if i < k {
        lemma_bad_variant_found(td, i + 1, k);
    }
}

} // verus!
