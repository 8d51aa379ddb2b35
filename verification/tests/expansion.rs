use genesis_build::definition::{
    AttrKind, BodyItem, Def, GenesisBuildDescriptor, GenesisConfigDescriptor,
};
use genesis_build::expand::{expand_genesis_build, ConvenienceKind, FragmentItem};
use genesis_build::generics::{GenericsKind, TraitArgs};

fn sample_items() -> Vec<BodyItem> {
    vec![
        BodyItem {
            is_impl: false,
            span: 10,
            attrs: vec![AttrKind::Other],
        },
        BodyItem {
            is_impl: true,
            span: 42,
            attrs: vec![AttrKind::Other],
        },
        BodyItem {
            is_impl: false,
            span: 30,
            attrs: vec![],
        },
    ]
}

fn sample_def(
    config: Option<GenesisConfigDescriptor>,
    build: Option<GenesisBuildDescriptor>,
    has_instance: bool,
) -> Def {
    Def {
        main_impl_generics: "T: ComponentConstraint".to_string(),
        main_use_generics: "T".to_string(),
        has_instance,
        items: sample_items(),
        genesis_config: config,
        genesis_build: build,
    }
}

#[test]
fn no_genesis_config_emits_nothing_and_leaves_record_unchanged() {
    let mut def = sample_def(None, None, false);
    let fragment = expand_genesis_build(&mut def);
    assert!(fragment.is_empty());
    assert_eq!(def.items.len(), 3);
    for (item, before) in def.items.iter().zip(sample_items().iter()) {
        assert_eq!(item.is_impl, before.is_impl);
        assert_eq!(item.span, before.span);
        assert_eq!(item.attrs, before.attrs);
    }
}

#[test]
fn declared_genesis_config_emits_one_capability_and_two_functions() {
    let config = GenesisConfigDescriptor {
        config_ident: "GenesisConfig".to_string(),
        has_own_constraint: true,
        has_instance: true,
    };
    let build = GenesisBuildDescriptor {
        index: 1,
        where_clause: Some("where T: Extra".to_string()),
    };
    let mut def = sample_def(Some(config), Some(build), true);
    let fragment = expand_genesis_build(&mut def);

    assert_eq!(fragment.len(), 2);
    match &fragment[0] {
        FragmentItem::Capability(cap) => {
            assert_eq!(cap.span, 42);
            assert!(cap.env_conditional);
            assert_eq!(cap.component_impl_generics, "T: ComponentConstraint");
            assert_eq!(cap.component_use_generics, "T");
            assert_eq!(cap.trait_args, TraitArgs::MainWithInstance);
            assert_eq!(cap.config_ident, "GenesisConfig");
            assert_eq!(cap.config_use_generics, GenericsKind::MainParamWithInstance);
            assert_eq!(cap.where_clause.as_deref(), Some("where T: Extra"));
        }
        FragmentItem::Convenience(_) => panic!("capability implementation must come first"),
    }
    match &fragment[1] {
        FragmentItem::Convenience(conv) => {
            assert_eq!(conv.span, 42);
            assert!(conv.env_conditional);
            assert_eq!(conv.config_ident, "GenesisConfig");
            assert_eq!(conv.config_generics, GenericsKind::MainParamWithInstance);
            assert_eq!(conv.component_use_generics, "T");
            assert_eq!(conv.fns.len(), 2);
            assert_eq!(conv.fns[0].kind, ConvenienceKind::BuildStorage);
            assert_eq!(conv.fns[1].kind, ConvenienceKind::AssimilateStorage);
            for f in conv.fns.iter() {
                assert_eq!(f.span, 42);
                // The configuration type already fixes every parameter.
                assert_eq!(f.generics, GenericsKind::Empty);
                assert_eq!(f.where_clause.as_deref(), Some("where T: Extra"));
            }
        }
        FragmentItem::Capability(_) => panic!("convenience implementation must come second"),
    }
}

#[test]
fn declared_genesis_config_marks_the_build_item_once() {
    let config = GenesisConfigDescriptor {
        config_ident: "GenesisConfig".to_string(),
        has_own_constraint: false,
        has_instance: false,
    };
    let build = GenesisBuildDescriptor {
        index: 1,
        where_clause: None,
    };
    let mut def = sample_def(Some(config), Some(build), false);
    expand_genesis_build(&mut def);

    assert_eq!(def.items.len(), 3);
    assert_eq!(
        def.items[1].attrs,
        vec![AttrKind::Other, AttrKind::EnvConditional]
    );
    assert_eq!(def.items[1].span, 42);
    assert!(def.items[1].is_impl);
    // The other items are untouched.
    assert_eq!(def.items[0].attrs, vec![AttrKind::Other]);
    assert_eq!(def.items[2].attrs, vec![]);
}

#[test]
fn single_instance_component_uses_hidden_instance_trait_args() {
    let config = GenesisConfigDescriptor {
        config_ident: "GenesisConfig".to_string(),
        has_own_constraint: false,
        has_instance: false,
    };
    let build = GenesisBuildDescriptor {
        index: 1,
        where_clause: None,
    };
    let mut def = sample_def(Some(config), Some(build), false);
    let fragment = expand_genesis_build(&mut def);
    match &fragment[0] {
        FragmentItem::Capability(cap) => {
            assert_eq!(cap.trait_args, TraitArgs::MainWithHiddenInstance);
            assert_eq!(cap.config_use_generics, GenericsKind::Empty);
            assert_eq!(cap.where_clause, None);
        }
        FragmentItem::Convenience(_) => panic!("capability implementation must come first"),
    }
}

#[test]
fn scenario_a_plain_config_in_plain_component_needs_main_parameter_only() {
    let config = GenesisConfigDescriptor {
        config_ident: "GenesisConfig".to_string(),
        has_own_constraint: false,
        has_instance: false,
    };
    let build = GenesisBuildDescriptor {
        index: 1,
        where_clause: None,
    };
    let mut def = sample_def(Some(config), Some(build), false);
    let fragment = expand_genesis_build(&mut def);
    match &fragment[1] {
        FragmentItem::Convenience(conv) => {
            for f in conv.fns.iter() {
                assert_eq!(f.generics, GenericsKind::MainParam);
            }
        }
        FragmentItem::Capability(_) => panic!("convenience implementation must come second"),
    }
}

#[test]
fn scenario_b_constrained_config_in_multi_instance_component_needs_no_extra_generics() {
    let config = GenesisConfigDescriptor {
        config_ident: "GenesisConfig".to_string(),
        has_own_constraint: true,
        has_instance: false,
    };
    let build = GenesisBuildDescriptor {
        index: 1,
        where_clause: None,
    };
    let mut def = sample_def(Some(config), Some(build), true);
    let fragment = expand_genesis_build(&mut def);
    match &fragment[1] {
        FragmentItem::Convenience(conv) => {
            for f in conv.fns.iter() {
                assert_eq!(f.generics, GenericsKind::Empty);
            }
        }
        FragmentItem::Capability(_) => panic!("convenience implementation must come second"),
    }
}
