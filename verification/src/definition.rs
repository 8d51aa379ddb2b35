//! The structured record of one component, as this synthesis stage sees it:
//! the component's own generics, its instance-multiplicity flag, the ordered
//! sequence of syntactic items in its body, and the optional genesis
//! descriptors. The record is produced and validated upstream; this module
//! states what that validation guarantees.

use vstd::prelude::*;
use crate::generics::illegal_flags;

verus! {

/// An attribute on an item of the component body. The synthesis stage only
/// distinguishes the environment-conditional marker it appends (restricting
/// an item to build/test environments) from anything already present.
#[derive(Clone, Copy, PartialEq, Eq, Structural, Debug)]
pub enum AttrKind {
    /// The marker that restricts an item to build/test environments.
    EnvConditional,
    /// Any other attribute; left untouched.
    Other,
}

/// One syntactic item of the component's body. The synthesis stage reads only
/// whether the item is an implementation block, its source span, and its
/// attribute list; everything else about the item is opaque to it.
#[derive(Debug)]
pub struct BodyItem {
    /// Whether the item is an implementation block. The item a
    /// [`GenesisBuildDescriptor`] points at must be one.
    pub is_impl: bool,
    /// Source-location tag of the item, propagated onto synthesized code so
    /// that downstream diagnostics point at the user's source.
    pub span: u64,
    /// The item's attributes, in order.
    pub attrs: Vec<AttrKind>,
}

/// The declaration of a genesis configuration: the configuration type's name
/// and the two flags describing its generic signature.
#[derive(Debug)]
pub struct GenesisConfigDescriptor {
    /// The identifier of the configuration type.
    pub config_ident: String,
    /// Whether the type's generic signature depends on the component's main
    /// type parameter.
    pub has_own_constraint: bool,
    /// Whether the signature additionally depends on instance multiplicity.
    pub has_instance: bool,
}

/// The declaration of the user-authored build routine: where its
/// implementation block stands in the component body, and any extra
/// constraints to preserve on synthesized signatures.
#[derive(Debug)]
pub struct GenesisBuildDescriptor {
    /// Index of the build-implementation block in the component body.
    pub index: usize,
    /// Optional applicability clause carried onto every synthesized
    /// declaration.
    pub where_clause: Option<String>,
}

/// The full structured record of one component, exclusively owned by the
/// calling pipeline and mutably borrowed for the duration of one synthesis
/// call.
#[derive(Debug)]
pub struct Def {
    /// Declaration-position generics of the component itself.
    pub main_impl_generics: String,
    /// Use-position generics of the component itself.
    pub main_use_generics: String,
    /// Whether the component supports instance multiplicity.
    pub has_instance: bool,
    /// The ordered sequence of syntactic items making up the component body.
    pub items: Vec<BodyItem>,
    /// The genesis configuration, if the component declares one.
    pub genesis_config: Option<GenesisConfigDescriptor>,
    /// The build-routine declaration; present whenever `genesis_config` is.
    pub genesis_build: Option<GenesisBuildDescriptor>,
}

/// What upstream parsing and validation guarantee of a record before it
/// reaches this stage: a declared genesis configuration comes with a build
/// descriptor, the descriptor's index points at an implementation block
/// inside the body, and the illegal flag combination never occurs.
pub open spec fn upstream_valid(def: Def) -> bool {
    def.genesis_config matches Some(gc) ==> {
        &&& !illegal_flags(gc.has_own_constraint, gc.has_instance)
        &&& def.genesis_build matches Some(gb) && {
            &&& gb.index < def.items@.len()
            &&& def.items@[gb.index as int].is_impl
        }
    }
}

/// Two optional applicability clauses with the same content.
pub open spec fn same_clause(a: Option<String>, b: Option<String>) -> bool {
    match (a, b) {
        (Option::None, Option::None) => true,
        (Option::Some(x), Option::Some(y)) => x@ == y@,
        _ => false,
    }
}

/// Copies an optional applicability clause.
pub fn clone_clause(c: &Option<String>) -> (r: Option<String>)
    ensures
        same_clause(r, *c),
{
    match c {
        Option::None => Option::None,
        Option::Some(s) => Option::Some(s.clone()),
    }
}

} // verus!
