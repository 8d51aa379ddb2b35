use genesis_build::generics::{
    declaration_tokens, resolve_config_generics, resolve_config_generics_checked,
    resolve_function_generics, resolve_trait_args, trait_args_tokens, use_tokens, GenericsKind,
    TraitArgs,
};

#[test]
fn config_generics_no_constraint_no_instance() {
    let g = resolve_config_generics(false, false);
    assert_eq!(g, GenericsKind::Empty);
    assert_eq!(declaration_tokens(g), "");
    assert_eq!(use_tokens(g), "");
}

#[test]
fn config_generics_constraint_only() {
    let g = resolve_config_generics(true, false);
    assert_eq!(g, GenericsKind::MainParam);
    assert_eq!(declaration_tokens(g), "T: ComponentConstraint");
    assert_eq!(use_tokens(g), "T");
}

#[test]
fn config_generics_constraint_and_instance() {
    let g = resolve_config_generics(true, true);
    assert_eq!(g, GenericsKind::MainParamWithInstance);
    assert_eq!(
        declaration_tokens(g),
        "T: ComponentConstraint<I>, I: Instance"
    );
    assert_eq!(use_tokens(g), "T, I");
}

#[test]
fn config_generics_illegal_row_is_rejected() {
    assert_eq!(resolve_config_generics_checked(false, true), None);
    assert_eq!(
        resolve_config_generics_checked(false, false),
        Some(GenericsKind::Empty)
    );
    assert_eq!(
        resolve_config_generics_checked(true, false),
        Some(GenericsKind::MainParam)
    );
    assert_eq!(
        resolve_config_generics_checked(true, true),
        Some(GenericsKind::MainParamWithInstance)
    );
}

#[test]
fn function_generics_table() {
    assert_eq!(resolve_function_generics(false, false), GenericsKind::MainParam);
    assert_eq!(
        resolve_function_generics(false, true),
        GenericsKind::MainParamWithInstance
    );
    assert_eq!(resolve_function_generics(true, false), GenericsKind::Empty);
    assert_eq!(resolve_function_generics(true, true), GenericsKind::Empty);
}

#[test]
fn trait_args_depend_only_on_component_instance_flag() {
    let with = resolve_trait_args(true);
    assert_eq!(with, TraitArgs::MainWithInstance);
    assert_eq!(trait_args_tokens(with), "T, I");
    let without = resolve_trait_args(false);
    assert_eq!(without, TraitArgs::MainWithHiddenInstance);
    assert_eq!(trait_args_tokens(without), "T, __InherentHiddenInstance");
}
