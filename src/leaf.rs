//! The leaf generator: error codes, descriptions and display rules for an
//! enum whose variants are annotated with descriptions.

use vstd::prelude::*;
use crate::code::{error_code, format_error_code};
use crate::description::{Fields, TypeDescription, VariantDescription};
use crate::error::GenerateError;
use crate::metadata::{find_unique, lookup, Lookup};
use crate::pretty::{opt_view, ErrorValue};

verus! {

/// How a variant's display rule reaches its payload.
#[derive(Debug, PartialEq, Eq)]
pub enum Payload {
    /// The variant carries nothing.
    Nothing,
    /// The variant's single unnamed field.
    Positional,
    /// The variant's single named field.
    Field(String),
}

/// What is generated for one variant.
#[derive(Debug)]
pub struct LeafRule {
    pub variant: String,
    pub code: String,
    pub description: String,
    pub payload: Payload,
}

/// What is generated for a leaf type: one rule per variant, in declaration order.
#[derive(Debug)]
pub struct LeafBundle {
    pub enum_name: String,
    pub rules: Vec<LeafRule>,
}

/// The annotation namespace read by the generators.
pub open spec fn namespace() -> Seq<char> {
    "error_enum"@
}

/// A variant's description: the declared text with one period appended,
/// whether or not the text already ends in one.
pub open spec fn description_text(declared: Seq<char>) -> Seq<char> {
    declared + seq!['.']
}

/// The payload access a leaf variant with an accepted shape gets.
pub open spec fn payload_rule(p: Payload, f: Fields) -> bool {
    match f {
        Fields::Unit => p is Nothing,
        Fields::Unnamed(_) => p is Positional,
        Fields::Named(fs) => p is Field && p->Field_0@ == fs@[0].name@,
    }
}

/// A leaf variant carries nothing or exactly one field.
pub open spec fn leaf_shape_ok(f: Fields) -> bool {
    match f {
        Fields::Unit => true,
        Fields::Unnamed(fs) => fs@.len() == 1,
        Fields::Named(fs) => fs@.len() == 1,
    }
}

/// What is wrong with the variant at position `i`, checked in this order:
/// its description annotation, then its shape.
pub open spec fn variant_error(v: VariantDescription, i: int) -> Option<GenerateError> {
    match lookup(v.meta@, namespace(), "description"@) {
        Lookup::Duplicate => Some(GenerateError::DuplicateMetadataKey { variant: Some(i as usize) }),
        Lookup::Absent => Some(GenerateError::MissingDescription { variant: i as usize }),
        Lookup::Found(_) => if leaf_shape_ok(v.fields) {
            None
        } else {
            Some(GenerateError::UnsupportedFieldArity { variant: i as usize })
        },
    }
}

/// The error of the first faulty variant at position `i` or later.
pub open spec fn first_variant_error(vs: Seq<VariantDescription>, i: int) -> Option<GenerateError>
    decreases vs.len() - i,
{
    if i < 0 || i >= vs.len() {
        None
    } else if variant_error(vs[i], i) is Some {
        variant_error(vs[i], i)
    } else {
        first_variant_error(vs, i + 1)
    }
}

/// The error that generating `td` as a leaf type reports, if any: the type's
/// `prefix` is checked first, then the variants in declaration order.
pub open spec fn leaf_error(td: TypeDescription) -> Option<GenerateError> {
    match lookup(td.meta@, namespace(), "prefix"@) {
        Lookup::Duplicate => Some(GenerateError::DuplicateMetadataKey { variant: None }),
        Lookup::Absent => Some(GenerateError::MissingPrefix),
        Lookup::Found(_) => first_variant_error(td.variants@, 0),
    }
}

/// The declared `prefix` of a type.
pub open spec fn prefix_of(td: TypeDescription) -> Seq<char> {
    lookup(td.meta@, namespace(), "prefix"@)->Found_0
}

/// The declared `description` of a variant.
pub open spec fn declared_description(v: VariantDescription) -> Seq<char> {
    lookup(v.meta@, namespace(), "description"@)->Found_0
}

/// The rule generated for the variant `v` at position `i` of a type with `prefix`.
pub open spec fn rule_for(r: LeafRule, prefix: Seq<char>, v: VariantDescription, i: int) -> bool {
    &&& r.variant@ == v.name@
    &&& r.code@ == error_code(prefix, (i + 1) as nat)
    &&& r.description@ == description_text(declared_description(v))
    &&& payload_rule(r.payload, v.fields)
}

/// The bundle generated for `td`: one rule per variant, in order.
pub open spec fn leaf_bundle_for(b: LeafBundle, td: TypeDescription) -> bool {
    &&& b.enum_name@ == td.name@
    &&& b.rules@.len() == td.variants@.len()
    &&& forall|i: int|
        0 <= i < b.rules@.len() ==> #[trigger] rule_for(
            b.rules@[i],
            prefix_of(td),
            td.variants@[i],
            i,
        )
}

/// `v` is the value of the variant at position `i` of `b` whose payload
/// renders as `detail` in debug form.
pub open spec fn is_value_of(v: ErrorValue, b: LeafBundle, i: int, detail: Option<Seq<char>>) -> bool {
    &&& v.code@ == b.rules@[i].code@
    &&& v.description@ == b.rules@[i].description@
    &&& opt_view(v.detail) == detail
}

impl LeafBundle {
    /// The value of the variant at position `variant`; `detail` is the debug
    /// rendering of its payload, present exactly when the variant has one.
    pub fn error_value(&self, variant: usize, detail: Option<String>) -> (r: ErrorValue)
        requires
            variant < self.rules@.len(),
            detail is Some <==> !(self.rules@[variant as int].payload is Nothing),
        ensures
            is_value_of(r, *self, variant as int, opt_view(detail)),
    {
        let rule = &self.rules[variant];
        ErrorValue { code: rule.code.clone(), description: rule.description.clone(), detail }
    }
}

proof fn lemma_skip_valid_prefix(vs: Seq<VariantDescription>, i: int)
    requires
        0 <= i <= vs.len(),
        forall|j: int| 0 <= j < i ==> (#[trigger] variant_error(vs[j], j)) is None,
    ensures
        first_variant_error(vs, 0) == first_variant_error(vs, i),
    decreases i,
{
    if i > 0 {
        lemma_skip_valid_prefix(vs, i - 1);
        assert(variant_error(vs[i - 1], i - 1) is None);
    }
}

/// Generates the codes, descriptions and display rules of a leaf type, or
/// reports the first problem found; nothing is generated on failure.
pub fn generate_leaf(td: &TypeDescription) -> (r: Result<LeafBundle, GenerateError>)
    ensures
        match leaf_error(*td) {
            Some(e) => r == Err::<LeafBundle, GenerateError>(e),
            None => r is Ok && leaf_bundle_for(r->Ok_0, *td),
        },
{
    let prefix = match find_unique(&td.meta, "error_enum", "prefix") {
        Err(_) => {
            return Err(GenerateError::DuplicateMetadataKey { variant: None });
        },
        Ok(None) => {
            return Err(GenerateError::MissingPrefix);
        },
        Ok(Some(p)) => p,
    };
    let mut rules: Vec<LeafRule> = Vec::new();
    let mut i: usize = 0;
    while i < td.variants.len()
        invariant
            i <= td.variants@.len(),
            lookup(td.meta@, namespace(), "prefix"@) == Lookup::Found(prefix@),
            rules@.len() == i,
            forall|j: int| 0 <= j < i ==> (#[trigger] variant_error(td.variants@[j], j)) is None,
            forall|j: int|
                0 <= j < i ==> #[trigger] rule_for(
                    rules@[j],
                    prefix@,
                    td.variants@[j],
                    j,
                ),
        decreases td.variants@.len() - i,
    {
        proof {
            lemma_skip_valid_prefix(td.variants@, i as int);
        }
        let v = &td.variants[i];
        let declared = match find_unique(&v.meta, "error_enum", "description") {
            Err(_) => {
                return Err(GenerateError::DuplicateMetadataKey { variant: Some(i) });
            },
            Ok(None) => {
                return Err(GenerateError::MissingDescription { variant: i });
            },
            Ok(Some(d)) => d,
        };
        let payload = match &v.fields {
            Fields::Unit => Payload::Nothing,
            Fields::Unnamed(fs) => {
                if fs.len() != 1 {
                    return Err(GenerateError::UnsupportedFieldArity { variant: i });
                }
                Payload::Positional
            },
            Fields::Named(fs) => {
                if fs.len() != 1 {
                    return Err(GenerateError::UnsupportedFieldArity { variant: i });
                }
                Payload::Field(fs[0].name.clone())
            },
        };
        let code = format_error_code(prefix.as_str(), i + 1);
        let mut description = declared;
        proof {
            reveal_strlit(".");
        }
        description.append(".");
        let rule = LeafRule { variant: v.name.clone(), code, description, payload };
        assert(rule.description@ =~= description_text(declared_description(td.variants@[i as int])));
        rules.push(rule);
        i = i + 1;
    }
    proof {
        lemma_skip_valid_prefix(td.variants@, i as int);
    }
    Ok(LeafBundle { enum_name: td.name.clone(), rules })
}

} // verus!
