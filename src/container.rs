//! The container generator: an enum whose variants each wrap one error value
//! and delegate everything to it.

use vstd::prelude::*;
use crate::description::{FieldType, Fields, TypeDescription};
use crate::error::GenerateError;
use crate::pretty::Wrapped;

verus! {

/// How a container variant's wrapped value is reached.
#[derive(Debug, PartialEq, Eq)]
pub enum Access {
    /// The variant's single unnamed field.
    Positional,
    /// The variant's single named field.
    Field(String),
}

/// What is generated for one container variant.
#[derive(Debug)]
pub struct ContainerRule {
    pub variant: String,
    pub access: Access,
    /// The type from which a value converts into this variant; `None` when
    /// the wrapped type is not a plain name and no conversion is generated.
    pub conversion: Option<String>,
}

/// What is generated for a container type: one rule per variant, in order.
#[derive(Debug)]
pub struct ContainerBundle {
    pub enum_name: String,
    pub rules: Vec<ContainerRule>,
}

/// A container variant wraps exactly one field.
pub open spec fn container_shape_ok(f: Fields) -> bool {
    match f {
        Fields::Unit => false,
        Fields::Unnamed(fs) => fs@.len() == 1,
        Fields::Named(fs) => fs@.len() == 1,
    }
}

/// The position of the first variant of `td` that does not wrap exactly one
/// field, if any.
pub open spec fn first_bad_variant(td: TypeDescription, i: int) -> Option<int>
    decreases td.variants@.len() - i,
{
    if i < 0 || i >= td.variants@.len() {
        None
    } else if !container_shape_ok(td.variants@[i].fields) {
        Some(i)
    } else {
        first_bad_variant(td, i + 1)
    }
}

/// The name of a type that is a single path segment without arguments.
pub open spec fn plain_source_type(t: FieldType) -> Option<Seq<char>> {
    match t {
        FieldType::Path(segs) => if segs@.len() == 1 && !segs@[0].has_arguments {
            Some(segs@[0].ident@)
        } else {
            None
        },
        FieldType::Other => None,
    }
}

/// The declared type of the single field of `f`.
pub open spec fn wrapped_type(f: Fields) -> FieldType {
    match f {
        Fields::Unit => FieldType::Other,
        Fields::Unnamed(fs) => fs@[0],
        Fields::Named(fs) => fs@[0].ty,
    }
}

/// The rule generated for a variant with a single field.
pub open spec fn container_rule_for(r: ContainerRule, name: Seq<char>, f: Fields) -> bool {
    &&& r.variant@ == name
    &&& match f {
        Fields::Named(fs) => r.access is Field && r.access->Field_0@ == fs@[0].name@,
        _ => r.access is Positional,
    }
    &&& match plain_source_type(wrapped_type(f)) {
        None => r.conversion is None,
        Some(n) => r.conversion is Some && r.conversion->Some_0@ == n,
    }
}

/// The bundle generated for `td`: one rule per variant, in order.
pub open spec fn container_bundle_for(b: ContainerBundle, td: TypeDescription) -> bool {
    &&& b.enum_name@ == td.name@
    &&& b.rules@.len() == td.variants@.len()
    &&& forall|i: int|
        0 <= i < b.rules@.len() ==> #[trigger] container_rule_for(
            b.rules@[i],
            td.variants@[i].name@,
            td.variants@[i].fields,
        )
}

/// The name of `t` if it is a plain, unparameterized type name.
fn plain_source_type_of(t: &FieldType) -> (r: Option<String>)
    ensures
        r is None <==> plain_source_type(*t) is None,
        r is Some ==> r->Some_0@ == plain_source_type(*t)->Some_0,
{
    match t {
        FieldType::Path(segs) => {
            if segs.len() == 1 && !segs[0].has_arguments {
                Some(segs[0].ident.clone())
            } else {
                None
            }
        },
        FieldType::Other => None,
    }
}

/// Whether the rule `r` converts values of the type named `n` into its variant.
pub open spec fn converts_from(r: ContainerRule, n: Seq<char>) -> bool {
    r.conversion is Some && r.conversion->Some_0@ == n
}

impl ContainerBundle {
    /// `inner` wrapped in the variant at position `variant`.
    pub fn wrap<E>(&self, variant: usize, inner: E) -> (r: Wrapped<E>)
        requires
            variant < self.rules@.len(),
        ensures
            r.variant == variant,
            r.inner == inner,
    {
        Wrapped { variant, inner }
    }

    /// The implicit conversion of a value of the type named `source_type` into
    /// the container: it lands in the first variant that converts from that
    /// type, and there is none when no variant does.
    pub fn convert<E>(&self, source_type: &str, inner: E) -> (r: Option<Wrapped<E>>)
        ensures
            r is None <==> forall|i: int|
                0 <= i < self.rules@.len() ==> !converts_from(#[trigger] self.rules@[i], source_type@),
            r is Some ==> {
                let k = r->Some_0.variant as int;
                &&& 0 <= k < self.rules@.len()
                &&& converts_from(self.rules@[k], source_type@)
                &&& forall|j: int| 0 <= j < k ==> !converts_from(#[trigger] self.rules@[j], source_type@)
                &&& r->Some_0.inner == inner
            },
    {
        let wanted = source_type.to_owned();
        let mut i: usize = 0;
        while i < self.rules.len()
            invariant
                i <= self.rules@.len(),
                wanted@ == source_type@,
                forall|j: int| 0 <= j < i ==> !converts_from(#[trigger] self.rules@[j], source_type@),
            decreases self.rules@.len() - i,
        {
            match &self.rules[i].conversion {
                Some(n) => {
                    if *n == wanted {
                        return Some(Wrapped { variant: i, inner });
                    }
                },
                None => {},
            }
            i = i + 1;
        }
        None
    }
}

proof fn lemma_skip_wrapping_prefix(td: TypeDescription, i: int)
    requires
        0 <= i <= td.variants@.len(),
        forall|j: int| 0 <= j < i ==> container_shape_ok(#[trigger] td.variants@[j].fields),
    ensures
        first_bad_variant(td, 0) == first_bad_variant(td, i),
    decreases i,
{
    if i > 0 {
        lemma_skip_wrapping_prefix(td, i - 1);
    }
}

/// Generates the delegation and conversion rules of a container type, or
/// reports the first variant that does not wrap exactly one field.
pub fn generate_container(td: &TypeDescription) -> (r: Result<ContainerBundle, GenerateError>)
    ensures
        match first_bad_variant(*td, 0) {
            Some(k) => r == Err::<ContainerBundle, GenerateError>(
                GenerateError::RequiresSingleField { variant: k as usize },
            ),
            None => r is Ok && container_bundle_for(r->Ok_0, *td),
        },
{
    let mut rules: Vec<ContainerRule> = Vec::new();
    let mut i: usize = 0;
    while i < td.variants.len()
        invariant
            i <= td.variants@.len(),
            rules@.len() == i,
            forall|j: int| 0 <= j < i ==> container_shape_ok(#[trigger] td.variants@[j].fields),
            forall|j: int|
                0 <= j < i ==> #[trigger] container_rule_for(
                    rules@[j],
                    td.variants@[j].name@,
                    td.variants@[j].fields,
                ),
        decreases td.variants@.len() - i,
    {
        proof {
            lemma_skip_wrapping_prefix(*td, i as int);
        }
        let v = &td.variants[i];
        let rule = match &v.fields {
            Fields::Unit => {
                return Err(GenerateError::RequiresSingleField { variant: i });
            },
            Fields::Unnamed(fs) => {
                if fs.len() != 1 {
                    return Err(GenerateError::RequiresSingleField { variant: i });
                }
                ContainerRule {
                    variant: v.name.clone(),
                    access: Access::Positional,
                    conversion: plain_source_type_of(&fs[0]),
                }
            },
            Fields::Named(fs) => {
                if fs.len() != 1 {
                    return Err(GenerateError::RequiresSingleField { variant: i });
                }
                ContainerRule {
                    variant: v.name.clone(),
                    access: Access::Field(fs[0].name.clone()),
                    conversion: plain_source_type_of(&fs[0].ty),
                }
            },
        };
        rules.push(rule);
        i = i + 1;
    }
    proof {
        lemma_skip_wrapping_prefix(*td, i as int);
    }
    Ok(ContainerBundle { enum_name: td.name.clone(), rules })
}

} // verus!
