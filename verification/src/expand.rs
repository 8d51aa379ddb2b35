//! Conditional Implementation Emitter and Diagnostic Span Propagator: the
//! single synchronous pass that consumes one component record, resolves the
//! generic signatures for its genesis configuration, emits the structured
//! code fragment, and marks the user's build block as environment-conditional.

use vstd::prelude::*;
use crate::definition::{
    clone_clause, same_clause, AttrKind, BodyItem, Def, GenesisBuildDescriptor,
    GenesisConfigDescriptor,
};
use crate::generics::{
    config_generics, function_generics, resolve_config_generics, resolve_function_generics,
    resolve_trait_args, trait_args, GenericsKind, TraitArgs,
};

verus! {

/// The synthesized capability implementation: it lets the framework ask the
/// configuration type to build itself into a storage container, uniformly
/// across components.
#[derive(Debug)]
pub struct CapabilityImpl {
    /// Source span of the user's build block, carried onto this item.
    pub span: u64,
    /// Whether the implementation is restricted to build/test environments.
    /// Synthesis always restricts it.
    pub env_conditional: bool,
    /// Declaration-position generics of the enclosing component, used to
    /// declare the implementation.
    pub component_impl_generics: String,
    /// Use-position generics of the enclosing component, used when the body
    /// delegates to the build capability.
    pub component_use_generics: String,
    /// Generic arguments of the reference to the main capability trait.
    pub trait_args: TraitArgs,
    /// The configuration type the implementation is for.
    pub config_ident: String,
    /// Use-position generics of the configuration type.
    pub config_use_generics: GenericsKind,
    /// Applicability clause preserved from the build declaration.
    pub where_clause: Option<String>,
}

/// Which convenience entry point a synthesized function is.
#[derive(Clone, Copy, PartialEq, Eq, Structural, Debug)]
pub enum ConvenienceKind {
    /// Creates an empty storage container and delegates to assimilation.
    BuildStorage,
    /// Runs the build routine against a caller-supplied container.
    AssimilateStorage,
}

/// One synthesized convenience function on the configuration type.
#[derive(Debug)]
pub struct ConvenienceFn {
    /// Source span of the user's build block, carried onto this function.
    pub span: u64,
    /// Which entry point this is.
    pub kind: ConvenienceKind,
    /// The function's own generic parameters.
    pub generics: GenericsKind,
    /// Applicability clause preserved from the build declaration.
    pub where_clause: Option<String>,
}

/// The synthesized inherent implementation holding the two convenience
/// functions.
#[derive(Debug)]
pub struct ConvenienceImpl {
    /// Source span of the user's build block, carried onto this item.
    pub span: u64,
    /// Whether the implementation is restricted to build/test environments.
    pub env_conditional: bool,
    /// The configuration type the functions are defined on.
    pub config_ident: String,
    /// The configuration type's own declaration/use generics.
    pub config_generics: GenericsKind,
    /// Use-position generics of the enclosing component, used when the bodies
    /// delegate to the build capability.
    pub component_use_generics: String,
    /// The convenience functions, in order.
    pub fns: Vec<ConvenienceFn>,
}

/// One item of the emitted code fragment.
#[derive(Debug)]
pub enum FragmentItem {
    /// The capability implementation.
    Capability(CapabilityImpl),
    /// The inherent implementation with the convenience functions.
    Convenience(ConvenienceImpl),
}

/// What the synthesized capability implementation must be, given the record
/// and its genesis descriptors.
pub open spec fn capability_for(
    def: Def,
    gc: GenesisConfigDescriptor,
    gb: GenesisBuildDescriptor,
    cap: CapabilityImpl,
) -> bool {
    &&& cap.span == def.items@[gb.index as int].span
    &&& cap.env_conditional
    &&& cap.component_impl_generics@ == def.main_impl_generics@
    &&& cap.component_use_generics@ == def.main_use_generics@
    &&& cap.trait_args == trait_args(def.has_instance)
    &&& cap.config_ident@ == gc.config_ident@
    &&& cap.config_use_generics == config_generics(gc.has_own_constraint, gc.has_instance)
    &&& same_clause(cap.where_clause, gb.where_clause)
}

/// What one synthesized convenience function must be.
pub open spec fn convenience_fn_for(
    def: Def,
    gc: GenesisConfigDescriptor,
    gb: GenesisBuildDescriptor,
    kind: ConvenienceKind,
    f: ConvenienceFn,
) -> bool {
    &&& f.span == def.items@[gb.index as int].span
    &&& f.kind == kind
    &&& f.generics == function_generics(gc.has_own_constraint, def.has_instance)
    &&& same_clause(f.where_clause, gb.where_clause)
}

/// What the synthesized inherent implementation must be: the two convenience
/// functions, in order, on the configuration type.
pub open spec fn convenience_for(
    def: Def,
    gc: GenesisConfigDescriptor,
    gb: GenesisBuildDescriptor,
    conv: ConvenienceImpl,
) -> bool {
    &&& conv.span == def.items@[gb.index as int].span
    &&& conv.env_conditional
    &&& conv.config_ident@ == gc.config_ident@
    &&& conv.config_generics == config_generics(gc.has_own_constraint, gc.has_instance)
    &&& conv.component_use_generics@ == def.main_use_generics@
    &&& conv.fns@.len() == 2
    &&& convenience_fn_for(def, gc, gb, ConvenienceKind::BuildStorage, conv.fns@[0])
    &&& convenience_fn_for(def, gc, gb, ConvenienceKind::AssimilateStorage, conv.fns@[1])
}

/// What the whole emitted fragment must be for a given record: empty when no
/// genesis configuration is declared, otherwise the capability implementation
/// followed by the inherent implementation.
pub open spec fn fragment_for(def: Def, fragment: Seq<FragmentItem>) -> bool {
    match (def.genesis_config, def.genesis_build) {
        (Option::None, _) => fragment.len() == 0,
        (Option::Some(gc), Option::Some(gb)) => {
            &&& fragment.len() == 2
            &&& fragment[0] matches FragmentItem::Capability(cap) && capability_for(
                def,
                gc,
                gb,
                cap,
            )
            &&& fragment[1] matches FragmentItem::Convenience(conv) && convenience_for(
                def,
                gc,
                gb,
                conv,
            )
        },
        (Option::Some(_), Option::None) => false,
    }
}

/// The one mutation synthesis performs on a body item: exactly one
/// environment-conditional marker appended to its attributes, everything else
/// unchanged.
pub open spec fn marker_appended(before: BodyItem, after: BodyItem) -> bool {
    &&& after.is_impl == before.is_impl
    &&& after.span == before.span
    &&& after.attrs@ == before.attrs@.push(AttrKind::EnvConditional)
}

/// How the record after synthesis relates to the record before: untouched
/// when no genesis configuration is declared, otherwise identical except that
/// the referenced build item gained the environment-conditional marker.
pub open spec fn definition_after(before: Def, after: Def) -> bool {
    match (before.genesis_config, before.genesis_build) {
        (Option::None, _) => after == before,
        (Option::Some(_), Option::Some(gb)) => {
            &&& after.main_impl_generics == before.main_impl_generics
            &&& after.main_use_generics == before.main_use_generics
            &&& after.has_instance == before.has_instance
            &&& after.genesis_config == before.genesis_config
            &&& after.genesis_build == before.genesis_build
            &&& after.items@.len() == before.items@.len()
            &&& 0 <= gb.index < before.items@.len()
            &&& marker_appended(before.items@[gb.index as int], after.items@[gb.index as int])
            &&& forall|j: int|
                0 <= j < before.items@.len() && j != gb.index ==> after.items@[j]
                    == before.items@[j]
        },
        (Option::Some(_), Option::None) => false,
    }
}

/// How many capability implementations a fragment holds.
pub open spec fn capability_count(fragment: Seq<FragmentItem>) -> int
    decreases fragment.len(),
{
    if fragment.len() == 0 {
        0
    } else {
        (if fragment.first() is Capability {
            1int
        } else {
            0int
        }) + capability_count(fragment.drop_first())
    }
}

/// How many convenience functions a fragment holds, over all its items.
pub open spec fn convenience_fn_count(fragment: Seq<FragmentItem>) -> int
    decreases fragment.len(),
{
    (if fragment.len() == 0 {
        0int
    } else {
        (match fragment.first() {
            FragmentItem::Capability(_) => 0int,
            FragmentItem::Convenience(conv) => conv.fns@.len() as int,
        }) + convenience_fn_count(fragment.drop_first())
    })
}

/// A fragment synthesized for a declared genesis configuration contains
/// exactly one capability implementation and exactly two convenience
/// functions.
pub proof fn lemma_fragment_shape(def: Def, fragment: Seq<FragmentItem>)
    requires
        def.genesis_config is Some,
        fragment_for(def, fragment),
    ensures
        fragment.len() == 2,
        capability_count(fragment) == 1,
        convenience_fn_count(fragment) == 2,
{
    let rest = fragment.drop_first();
    let empty = rest.drop_first();
    assert(fragment.first() == fragment[0]);
    assert(rest.len() == 1);
    assert(rest.first() == fragment[1]);
    assert(empty.len() == 0);
    assert(capability_count(empty) == 0);
    assert(convenience_fn_count(empty) == 0);
    assert(capability_count(rest) == capability_count(empty));
    assert(capability_count(fragment) == 1 + capability_count(rest));
    assert(convenience_fn_count(rest) == 2 + convenience_fn_count(empty));
    assert(convenience_fn_count(fragment) == convenience_fn_count(rest));
}

/// How many environment-conditional markers an attribute list holds.
pub open spec fn marker_count(attrs: Seq<AttrKind>) -> int
    decreases attrs.len(),
{
    if attrs.len() == 0 {
        0
    } else {
        (if attrs.last() is EnvConditional {
            1int
        } else {
            0int
        }) + marker_count(attrs.drop_last())
    }
}

/// Appending the environment-conditional marker to a body item raises its
/// marker count by exactly one and changes nothing else about the item.
pub proof fn lemma_marker_appended_count(before: BodyItem, after: BodyItem)
    requires
        marker_appended(before, after),
    ensures
        marker_count(after.attrs@) == marker_count(before.attrs@) + 1,
{
    assert(after.attrs@.drop_last() =~= before.attrs@);
}

/// Synthesizes the genesis-configuration glue for one component record.
///
/// When the record declares no genesis configuration, the fragment is empty
/// and the record is returned untouched: the common path, not an error. When
/// one is declared, the fragment holds the capability implementation and the
/// inherent implementation with the two convenience entry points, every
/// synthesized item carries the source span of the user's build block, and
/// that block gains exactly one environment-conditional marker.
pub fn expand_genesis_build(def: &mut Def) -> (fragment: Vec<FragmentItem>)
    requires
        crate::definition::upstream_valid(*old(def)),
    ensures
        fragment_for(*old(def), fragment@),
        definition_after(*old(def), *final(def)),
{
    if def.genesis_config.is_none() {
        return Vec::new();
    }
    let (config_ident, has_own_constraint, cfg_has_instance) = match &def.genesis_config {
        Option::Some(gc) => (gc.config_ident.clone(), gc.has_own_constraint, gc.has_instance),
        Option::None => unreached(),
    };
    let (index, where_clause) = match &def.genesis_build {
        Option::Some(gb) => (gb.index, clone_clause(&gb.where_clause)),
        Option::None => unreached(),
    };
    // Mark the user's build block as restricted to build/test environments.
    let mut item = def.items.remove(index);
    let span = item.span;
    item.attrs.push(AttrKind::EnvConditional);
    def.items.insert(index, item);
    proof {
        let before = old(def).items@;
        let after = def.items@;
        before.remove_ensures(index as int);
        before.remove(index as int).insert_ensures(index as int, after[index as int]);
        assert forall|j: int|
            0 <= j < before.len() && j != index as int implies after[j] == before[j] by {
            if j > index as int {
                assert(before.remove(index as int)[j - 1] == before[j]);
            }
        }
    }
    let config_gens = resolve_config_generics(has_own_constraint, cfg_has_instance);
    let fn_gens = resolve_function_generics(has_own_constraint, def.has_instance);
    let args = resolve_trait_args(def.has_instance);
    let capability = CapabilityImpl {
        span,
        env_conditional: true,
        component_impl_generics: def.main_impl_generics.clone(),
        component_use_generics: def.main_use_generics.clone(),
        trait_args: args,
        config_ident: config_ident.clone(),
        config_use_generics: config_gens,
        where_clause: clone_clause(&where_clause),
    };
    let build_fn = ConvenienceFn {
        span,
        kind: ConvenienceKind::BuildStorage,
        generics: fn_gens,
        where_clause: clone_clause(&where_clause),
    };
    let assimilate_fn = ConvenienceFn {
        span,
        kind: ConvenienceKind::AssimilateStorage,
        generics: fn_gens,
        where_clause,
    };
    let mut fns: Vec<ConvenienceFn> = Vec::new();
    fns.push(build_fn);
    fns.push(assimilate_fn);
    let convenience = ConvenienceImpl {
        span,
        env_conditional: true,
        config_ident,
        config_generics: config_gens,
        component_use_generics: def.main_use_generics.clone(),
        fns,
    };
    let mut fragment: Vec<FragmentItem> = Vec::new();
    fragment.push(FragmentItem::Capability(capability));
    fragment.push(FragmentItem::Convenience(convenience));
    fragment
}

} // verus!
