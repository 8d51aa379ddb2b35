//! Generic Signature Resolver: computes consistent generic-parameter
//! declaration/use pairs from the feature-flag combination of a genesis
//! configuration and its enclosing component.

use vstd::prelude::*;

verus! {

/// The generic parameters carried by a synthesized declaration or reference:
/// none, the component's main type parameter alone, or the main type
/// parameter together with an instance parameter.
#[derive(Clone, Copy, PartialEq, Eq, Debug)]
pub enum GenericsKind {
    /// No generic parameters.
    Empty,
    /// Declared as `T: ComponentConstraint`, used as `T`.
    MainParam,
    /// Declared as `T: ComponentConstraint<I>, I: Instance`, used as `T, I`.
    MainParamWithInstance,
}

/// The generic arguments used when referencing the component's main
/// capability trait. They depend only on whether the enclosing component
/// supports instance multiplicity.
#[derive(Clone, Copy, PartialEq, Eq, Debug)]
pub enum TraitArgs {
    /// `T, I`: the component supports instance multiplicity.
    MainWithInstance,
    /// `T, __InherentHiddenInstance`: a single-instance component; the hidden
    /// instance stands in for the absent instance parameter.
    MainWithHiddenInstance,
}

/// The configuration-flag combination that upstream validation guarantees
/// never to produce: a signature that depends on instance multiplicity but
/// not on the component's main type parameter.
pub open spec fn illegal_flags(has_own_constraint: bool, has_instance: bool) -> bool {
    !has_own_constraint && has_instance
}

/// Decision table for the configuration type's own generics, keyed by its
/// `(has_own_constraint, has_instance)` flags. The illegal row is left
/// unconstrained: it must never be reached for valid input.
pub open spec fn config_generics(has_own_constraint: bool, has_instance: bool) -> GenericsKind
    recommends
        !illegal_flags(has_own_constraint, has_instance),
{
    match (has_own_constraint, has_instance) {
        (false, false) => GenericsKind::Empty,
        (true, false) => GenericsKind::MainParam,
        (true, true) => GenericsKind::MainParamWithInstance,
        (false, true) => arbitrary(),
    }
}

/// Decision table for the generics required by the convenience functions,
/// keyed by the configuration's own-constraint flag and the enclosing
/// component's instance flag. A configuration type with its own constraint
/// already fixes every parameter, so the functions need none.
pub open spec fn function_generics(
    config_has_own_constraint: bool,
    component_has_instance: bool,
) -> GenericsKind {
    match (config_has_own_constraint, component_has_instance) {
        (false, false) => GenericsKind::MainParam,
        (false, true) => GenericsKind::MainParamWithInstance,
        (true, _) => GenericsKind::Empty,
    }
}

/// The generic arguments of a reference to the component's main capability
/// trait.
pub open spec fn trait_args(component_has_instance: bool) -> TraitArgs {
    if component_has_instance {
        TraitArgs::MainWithInstance
    } else {
        TraitArgs::MainWithHiddenInstance
    }
}

/// Resolves the configuration type's own declaration/use generics.
///
/// The illegal flag combination is excluded by contract: upstream validation
/// guarantees it never occurs, and reaching it would be a programming error,
/// not a recoverable condition. A caller that cannot rely on that guarantee
/// uses [`resolve_config_generics_checked`].
pub fn resolve_config_generics(has_own_constraint: bool, has_instance: bool) -> (r: GenericsKind)
    requires
        !illegal_flags(has_own_constraint, has_instance),
    ensures
        r == config_generics(has_own_constraint, has_instance),
{
    match (has_own_constraint, has_instance) {
        (false, false) => GenericsKind::Empty,
        (true, false) => GenericsKind::MainParam,
        (true, true) => GenericsKind::MainParamWithInstance,
        (false, true) => unreached(),
    }
}

/// Defensive boundary form of [`resolve_config_generics`]: resolves the
/// configuration generics, or reports the illegal flag combination as `None`
/// instead of relying on the upstream guarantee. No fragment can ever be
/// produced from the illegal row.
pub fn resolve_config_generics_checked(has_own_constraint: bool, has_instance: bool) -> (r: Option<
    GenericsKind,
>)
    ensures
        r is Some <==> !illegal_flags(has_own_constraint, has_instance),
        r matches Some(g) ==> g == config_generics(has_own_constraint, has_instance),
{
    match (has_own_constraint, has_instance) {
        (false, false) => Some(GenericsKind::Empty),
        (true, false) => Some(GenericsKind::MainParam),
        (true, true) => Some(GenericsKind::MainParamWithInstance),
        (false, true) => None,
    }
}

/// Resolves the generics required by the convenience functions.
pub fn resolve_function_generics(
    config_has_own_constraint: bool,
    component_has_instance: bool,
) -> (r: GenericsKind)
    ensures
        r == function_generics(config_has_own_constraint, component_has_instance),
{
    match (config_has_own_constraint, component_has_instance) {
        (false, false) => GenericsKind::MainParam,
        (false, true) => GenericsKind::MainParamWithInstance,
        (true, _) => GenericsKind::Empty,
    }
}

/// Resolves the generic arguments of a reference to the component's main
/// capability trait.
pub fn resolve_trait_args(component_has_instance: bool) -> (r: TraitArgs)
    ensures
        r == trait_args(component_has_instance),
{
    if component_has_instance {
        TraitArgs::MainWithInstance
    } else {
        TraitArgs::MainWithHiddenInstance
    }
}

/// The declaration-position token text of a resolved generics kind.
pub open spec fn declaration_text(g: GenericsKind) -> Seq<char> {
    match g {
        GenericsKind::Empty => ""@,
        GenericsKind::MainParam => "T: ComponentConstraint"@,
        GenericsKind::MainParamWithInstance => "T: ComponentConstraint<I>, I: Instance"@,
    }
}

/// The use-position token text of a resolved generics kind.
pub open spec fn use_text(g: GenericsKind) -> Seq<char> {
    match g {
        GenericsKind::Empty => ""@,
        GenericsKind::MainParam => "T"@,
        GenericsKind::MainParamWithInstance => "T, I"@,
    }
}

/// The token text of the capability-trait generic arguments.
pub open spec fn trait_args_text(a: TraitArgs) -> Seq<char> {
    match a {
        TraitArgs::MainWithInstance => "T, I"@,
        TraitArgs::MainWithHiddenInstance => "T, __InherentHiddenInstance"@,
    }
}

/// Renders the declaration-position text of a resolved generics kind.
pub fn declaration_tokens(g: GenericsKind) -> (r: String)
    ensures
        r@ == declaration_text(g),
{
    match g {
        GenericsKind::Empty => "".to_owned(),
        GenericsKind::MainParam => "T: ComponentConstraint".to_owned(),
        GenericsKind::MainParamWithInstance => "T: ComponentConstraint<I>, I: Instance".to_owned(),
    }
}

/// Renders the use-position text of a resolved generics kind.
pub fn use_tokens(g: GenericsKind) -> (r: String)
    ensures
        r@ == use_text(g),
{
    match g {
        GenericsKind::Empty => "".to_owned(),
        GenericsKind::MainParam => "T".to_owned(),
        GenericsKind::MainParamWithInstance => "T, I".to_owned(),
    }
}

/// Renders the capability-trait generic arguments.
pub fn trait_args_tokens(a: TraitArgs) -> (r: String)
    ensures
        r@ == trait_args_text(a),
{
    match a {
        TraitArgs::MainWithInstance => "T, I".to_owned(),
        TraitArgs::MainWithHiddenInstance => "T, __InherentHiddenInstance".to_owned(),
    }
}

} // verus!
