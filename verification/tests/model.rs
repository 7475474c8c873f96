// Tests of the generator model: table building and its rejections, the
// per-variant implementations the generators describe, subset resolution,
// and the value-level widening and narrowing round trips.

use powerset_enum::ast::{
    make_generic_ident, make_generic_idents, make_generic_type, make_never, EnumDecl, FieldsDecl,
    ParamFamily, ParamRef, TypeExpr, UnionType, VariantDecl,
};
use powerset_enum::generate::{
    gen_error_from_trait_impls, gen_methods_on_enum_impl, gen_never_with_variant_trait_impl,
    gen_powerset_macro, gen_with_variant_trait_impls, gen_without_trait_impls, powerset_enum_impl,
    ImplBody,
};
use powerset_enum::resolve::{
    apply_widening, find_payload_position, powerset_macro_impl, resolve, resolve_notation,
    PowersetMacroInput, ResolutionExpr,
};
use powerset_enum::table::{build_variant_table, GenError};
use powerset_enum::value::{TypedUnionValue, UnionValue};

fn source(name: &str) -> TypeExpr {
    TypeExpr::Source(name.to_string())
}

fn param(family: ParamFamily, ordinal: usize) -> TypeExpr {
    TypeExpr::Param(ParamRef { family, ordinal })
}

fn variant(tag: &str, payload: TypeExpr) -> VariantDecl {
    VariantDecl { tag: tag.to_string(), has_discriminant: false, fields: FieldsDecl::Unnamed(vec![payload]) }
}

fn three_variant_decl() -> EnumDecl {
    EnumDecl {
        name: "Failure".to_string(),
        generics: vec![],
        variants: vec![
            variant("A", source("X")),
            variant("B", source("Y")),
            variant("C", source("Z")),
        ],
    }
}

#[test]
fn test_build_table_accepts_and_rewrites() {
    let (rewritten, table) = build_variant_table(three_variant_decl()).unwrap();
    assert_eq!(table.records.len(), 3);
    for (i, record) in table.records.iter().enumerate() {
        assert_eq!(record.index, i);
    }
    assert_eq!(table.records[0].payload_type, source("X"));
    assert_eq!(table.records[1].payload_type, source("Y"));
    assert_eq!(table.records[2].payload_type, source("Z"));
    assert_eq!(table.records[0].tag, "A");
    assert_eq!(table.records[2].tag, "C");

    assert_eq!(rewritten.name, "Failure");
    assert_eq!(
        rewritten.generics,
        vec![
            ParamRef { family: ParamFamily::Decl, ordinal: 0 },
            ParamRef { family: ParamFamily::Decl, ordinal: 1 },
            ParamRef { family: ParamFamily::Decl, ordinal: 2 },
        ]
    );
    for (i, v) in rewritten.variants.iter().enumerate() {
        assert!(!v.has_discriminant);
        assert_eq!(v.fields, FieldsDecl::Unnamed(vec![param(ParamFamily::Decl, i)]));
    }
}

#[test]
fn test_build_table_rejects_generics() {
    let mut decl = three_variant_decl();
    decl.generics = vec![ParamRef { family: ParamFamily::Decl, ordinal: 0 }];
    assert_eq!(build_variant_table(decl), Err(GenError::UnsupportedGenerics));
}

#[test]
fn test_build_table_rejects_discriminant() {
    let mut decl = three_variant_decl();
    decl.variants[1].has_discriminant = true;
    assert_eq!(build_variant_table(decl), Err(GenError::UnsupportedDiscriminant(1)));
}

#[test]
fn test_build_table_rejects_unit_variant() {
    let mut decl = three_variant_decl();
    decl.variants[2].fields = FieldsDecl::Unit;
    assert_eq!(build_variant_table(decl), Err(GenError::UnsupportedShape(2)));
}

#[test]
fn test_build_table_rejects_named_fields() {
    let mut decl = three_variant_decl();
    decl.variants[0].fields = FieldsDecl::Named(2);
    assert_eq!(build_variant_table(decl), Err(GenError::UnsupportedShape(0)));
}

#[test]
fn test_build_table_rejects_multi_field_tuple() {
    let mut decl = three_variant_decl();
    decl.variants[0].fields = FieldsDecl::Unnamed(vec![source("X"), source("Y")]);
    assert_eq!(build_variant_table(decl), Err(GenError::UnsupportedShape(0)));
}

#[test]
fn test_build_table_reports_first_offence() {
    // The discriminant of the earlier variant is reported, not the later
    // variant's shape; within one variant the discriminant is checked first.
    let mut decl = three_variant_decl();
    decl.variants[0].has_discriminant = true;
    decl.variants[2].fields = FieldsDecl::Unit;
    assert_eq!(build_variant_table(decl), Err(GenError::UnsupportedDiscriminant(0)));

    let mut decl = three_variant_decl();
    decl.variants[1].has_discriminant = true;
    decl.variants[1].fields = FieldsDecl::Unit;
    assert_eq!(build_variant_table(decl), Err(GenError::UnsupportedDiscriminant(1)));
}

#[test]
fn test_generator_closure_counts() {
    // Closure: n transition/presence widening pairs, n conversions, n
    // narrowings, one universal widening implementation.
    let expansion = powerset_enum_impl(three_variant_decl()).unwrap();
    assert_eq!(expansion.widening.len(), 6);
    assert_eq!(expansion.conversions.len(), 3);
    assert_eq!(expansion.narrowing.len(), 3);
    assert_eq!(expansion.universal.target, TypeExpr::Never);
    assert_eq!(expansion.upcast.bounds.len(), 3);
    assert_eq!(expansion.upcast.n_steps, 3);
}

#[test]
fn test_widening_impl_structure() {
    let (_, table) = build_variant_table(three_variant_decl()).unwrap();
    let widening = gen_with_variant_trait_impls(&table);

    // The transition implementation for position 1.
    let transition = &widening[2];
    assert_eq!(transition.target, source("Y"));
    assert_eq!(
        transition.generics,
        vec![
            ParamRef { family: ParamFamily::Decl, ordinal: 0 },
            ParamRef { family: ParamFamily::Decl, ordinal: 2 },
        ]
    );
    assert_eq!(
        transition.self_args,
        vec![param(ParamFamily::Decl, 0), TypeExpr::Never, param(ParamFamily::Decl, 2)]
    );
    assert_eq!(
        transition.with_args,
        vec![param(ParamFamily::Decl, 0), source("Y"), param(ParamFamily::Decl, 2)]
    );
    // One reconstruction arm per other variant, in order, the removed
    // position's arm omitted.
    assert_eq!(transition.body, ImplBody::Reconstruct(vec!["A".to_string(), "C".to_string()]));

    // The presence implementation for position 1 is the identity.
    let presence = &widening[3];
    assert_eq!(presence.target, source("Y"));
    assert_eq!(
        presence.self_args,
        vec![param(ParamFamily::Decl, 0), source("Y"), param(ParamFamily::Decl, 2)]
    );
    assert_eq!(presence.with_args, presence.self_args);
    assert_eq!(presence.body, ImplBody::Identity);
}

#[test]
fn test_universal_widening_impl() {
    let (_, table) = build_variant_table(three_variant_decl()).unwrap();
    let universal = gen_never_with_variant_trait_impl(&table);
    assert_eq!(universal.target, TypeExpr::Never);
    assert_eq!(universal.generics, make_generic_idents(ParamFamily::Decl, 0, 3));
    assert_eq!(
        universal.self_args,
        vec![param(ParamFamily::Decl, 0), param(ParamFamily::Decl, 1), param(ParamFamily::Decl, 2)]
    );
    assert_eq!(universal.with_args, universal.self_args);
    assert_eq!(universal.body, ImplBody::Identity);
}

#[test]
fn test_conversion_impl_structure() {
    let (_, table) = build_variant_table(three_variant_decl()).unwrap();
    let conversions = gen_error_from_trait_impls(&table);
    assert_eq!(conversions.len(), 3);
    let c = &conversions[2];
    assert_eq!(c.source_type, source("Z"));
    assert_eq!(c.variant_tag, "C");
    assert_eq!(
        c.enum_args,
        vec![param(ParamFamily::Decl, 0), param(ParamFamily::Decl, 1), source("Z")]
    );
}

#[test]
fn test_narrowing_impl_structure() {
    let (_, table) = build_variant_table(three_variant_decl()).unwrap();
    let narrowing = gen_without_trait_impls(&table);
    let w = &narrowing[0];
    assert_eq!(w.target, source("X"));
    assert_eq!(
        w.self_args,
        vec![source("X"), param(ParamFamily::Decl, 1), param(ParamFamily::Decl, 2)]
    );
    assert_eq!(
        w.without_args,
        vec![TypeExpr::Never, param(ParamFamily::Decl, 1), param(ParamFamily::Decl, 2)]
    );
    // Every arm is present: the removed position extracts, the others rebuild.
    assert_eq!(w.arms.len(), 3);
    assert!(w.arms[0].extracted);
    assert!(!w.arms[1].extracted);
    assert!(!w.arms[2].extracted);
    assert_eq!(w.arms[1].tag, "B");
}

#[test]
fn test_upcast_fn_structure() {
    let (_, table) = build_variant_table(three_variant_decl()).unwrap();
    let upcast = gen_methods_on_enum_impl(&table);
    assert_eq!(upcast.source_params, make_generic_idents(ParamFamily::Old, 0, 3));
    assert_eq!(upcast.target_params, make_generic_idents(ParamFamily::New, 0, 3));
    assert_eq!(upcast.n_steps, 3);
    // The middle bound: targets already converted below the step, sources
    // from the step up; the step's own parameter moves across.
    let b = &upcast.bounds[1];
    assert_eq!(
        b.self_args,
        vec![param(ParamFamily::New, 0), param(ParamFamily::Old, 1), param(ParamFamily::Old, 2)]
    );
    assert_eq!(b.target, param(ParamFamily::New, 1));
    assert_eq!(
        b.with_args,
        vec![param(ParamFamily::New, 0), param(ParamFamily::New, 1), param(ParamFamily::Old, 2)]
    );
}

#[test]
fn test_macro_def() {
    let (rewritten, table) = build_variant_table(three_variant_decl()).unwrap();
    let m = gen_powerset_macro(&rewritten.name, &table);
    assert_eq!(m.name, "Failure");
    assert_eq!(m.empty_args, vec![TypeExpr::Never, TypeExpr::Never, TypeExpr::Never]);
}

#[test]
fn test_make_helpers() {
    assert_eq!(
        make_generic_ident(ParamFamily::Old, 7),
        ParamRef { family: ParamFamily::Old, ordinal: 7 }
    );
    assert_eq!(
        make_generic_idents(ParamFamily::New, 1, 4),
        vec![
            ParamRef { family: ParamFamily::New, ordinal: 1 },
            ParamRef { family: ParamFamily::New, ordinal: 2 },
            ParamRef { family: ParamFamily::New, ordinal: 3 },
        ]
    );
    assert_eq!(
        make_generic_type(ParamRef { family: ParamFamily::Decl, ordinal: 2 }),
        param(ParamFamily::Decl, 2)
    );
    assert_eq!(make_never(), TypeExpr::Never);
}

#[test]
fn test_powerset_macro_impl_chain() {
    let input = PowersetMacroInput {
        empty_powerset: UnionType {
            name: "Failure".to_string(),
            args: vec![TypeExpr::Never, TypeExpr::Never],
        },
        types_in_powerset: vec![source("X"), source("Y")],
    };
    let chain = powerset_macro_impl(input);
    // The fold is left-nested: ((start + X) + Y).
    match chain {
        ResolutionExpr::Widen(inner, ty) => {
            assert_eq!(ty, source("Y"));
            match *inner {
                ResolutionExpr::Widen(innermost, ty) => {
                    assert_eq!(ty, source("X"));
                    match *innermost {
                        ResolutionExpr::Start(u) => assert_eq!(u.name, "Failure"),
                        _ => panic!("chain bottom is not the start"),
                    }
                },
                _ => panic!("chain is too short"),
            }
        },
        _ => panic!("chain is empty"),
    }
}

#[test]
fn test_find_payload_position() {
    let (_, table) = build_variant_table(three_variant_decl()).unwrap();
    assert_eq!(find_payload_position(&table, &source("X")), 0);
    assert_eq!(find_payload_position(&table, &source("Z")), 2);
    // Absent types land on the table's length.
    assert_eq!(find_payload_position(&table, &source("W")), 3);
}

#[test]
fn test_resolve_notation_fills_positions() {
    let (_, table) = build_variant_table(three_variant_decl()).unwrap();
    let resolved = resolve_notation(&vec![source("X"), source("Z")], &table);
    assert_eq!(resolved, Some(vec![source("X"), TypeExpr::Never, source("Z")]));
}

#[test]
fn test_resolve_notation_empty_list() {
    // An empty list resolves to the fully excluded instantiation.
    let (_, table) = build_variant_table(three_variant_decl()).unwrap();
    let resolved = resolve_notation(&vec![], &table);
    assert_eq!(resolved, Some(vec![TypeExpr::Never, TypeExpr::Never, TypeExpr::Never]));
}

#[test]
fn test_resolve_order_independent() {
    // Order-independence: the two orders land on the same instantiation.
    let (_, table) = build_variant_table(three_variant_decl()).unwrap();
    let ab = resolve_notation(&vec![source("X"), source("Y")], &table);
    let ba = resolve_notation(&vec![source("Y"), source("X")], &table);
    assert_eq!(ab, ba);
    assert_eq!(ab, Some(vec![source("X"), source("Y"), TypeExpr::Never]));
}

#[test]
fn test_resolve_idempotent() {
    // Idempotence: a repeated type hits the identity implementation.
    let (_, table) = build_variant_table(three_variant_decl()).unwrap();
    let twice = resolve_notation(&vec![source("Y"), source("Y")], &table);
    let once = resolve_notation(&vec![source("Y")], &table);
    assert_eq!(twice, once);
    assert_eq!(once, Some(vec![TypeExpr::Never, source("Y"), TypeExpr::Never]));
}

#[test]
fn test_resolve_rejects_unknown_type() {
    // Rejection: a type outside the declared variant set fails to resolve.
    let (_, table) = build_variant_table(three_variant_decl()).unwrap();
    assert_eq!(resolve_notation(&vec![source("X"), source("W")], &table), None);
    assert_eq!(resolve_notation(&vec![source("W")], &table), None);
}

#[test]
fn test_resolve_then_widen_equals_direct() {
    // Resolving [X, Y] and then widening with Z equals resolving [X, Y, Z].
    let (_, table) = build_variant_table(three_variant_decl()).unwrap();
    let two = resolve_notation(&vec![source("X"), source("Y")], &table).unwrap();
    let widened = apply_widening(&two, &source("Z"), &table).unwrap();
    let direct = resolve_notation(&vec![source("X"), source("Y"), source("Z")], &table).unwrap();
    assert_eq!(widened, direct);
    assert_eq!(direct, vec![source("X"), source("Y"), source("Z")]);
}

#[test]
fn test_resolve_from_start_instantiation() {
    // The evaluator from an explicit starting instantiation.
    let (_, table) = build_variant_table(three_variant_decl()).unwrap();
    let start = vec![source("X"), TypeExpr::Never, TypeExpr::Never];
    let resolved = resolve(&start, &vec![source("Y")], &table);
    assert_eq!(resolved, Some(vec![source("X"), source("Y"), TypeExpr::Never]));
}

#[test]
fn test_value_round_trip_narrowing() {
    // A value built at a position: narrowing that position extracts the
    // payload; narrowing any other position re-tags the value unchanged.
    let (_, table) = build_variant_table(three_variant_decl()).unwrap();
    let args = resolve_notation(&vec![source("X"), source("Y")], &table).unwrap();

    let built = TypedUnionValue::from_payload(&table, args.clone(), &source("X"), 7u64);
    assert_eq!(built.value, UnionValue { tag: 0, payload: 7u64 });
    match built.remove_possibility(&source("X"), &table) {
        Err(payload) => assert_eq!(payload, 7u64),
        Ok(_) => panic!("narrowing the held variant must extract"),
    }

    let built = TypedUnionValue::from_payload(&table, args, &source("X"), 7u64);
    match built.remove_possibility(&source("Y"), &table) {
        Ok(narrowed) => {
            assert_eq!(narrowed.value, UnionValue { tag: 0, payload: 7u64 });
            assert_eq!(narrowed.args, vec![source("X"), TypeExpr::Never, TypeExpr::Never]);
        },
        Err(_) => panic!("narrowing another variant must succeed"),
    }
}

#[test]
fn test_value_widening_is_identity_on_value() {
    let (_, table) = build_variant_table(three_variant_decl()).unwrap();
    let args = resolve_notation(&vec![source("Y")], &table).unwrap();
    let built = TypedUnionValue::from_payload(&table, args, &source("Y"), 11u64);
    let widened = built.add_possibility(&source("Z"), &table).unwrap();
    assert_eq!(widened.value, UnionValue { tag: 1, payload: 11u64 });
    assert_eq!(widened.args, vec![TypeExpr::Never, source("Y"), source("Z")]);
    // Requesting the placeholder or an already present type changes nothing.
    let widened = widened.add_possibility(&TypeExpr::Never, &table).unwrap();
    let widened = widened.add_possibility(&source("Y"), &table).unwrap();
    assert_eq!(widened.args, vec![TypeExpr::Never, source("Y"), source("Z")]);
    // A type outside the table has no applicable implementation.
    assert!(widened.add_possibility(&source("W"), &table).is_none());
}

#[test]
fn test_upcast_transparency_round_trip() {
    // Widening through the full position list, then narrowing the newly
    // added positions back out in the same order, returns the original
    // value, at the original instantiation.
    let (_, table) = build_variant_table(three_variant_decl()).unwrap();
    let args = resolve_notation(&vec![source("Y")], &table).unwrap();
    let original = TypedUnionValue::from_payload(&table, args.clone(), &source("Y"), 3u64);

    let full = resolve_notation(&vec![source("X"), source("Y"), source("Z")], &table).unwrap();
    let wide = original.upcast(&full, &table);
    assert_eq!(wide.value, UnionValue { tag: 1, payload: 3u64 });
    assert_eq!(wide.args, full);

    let back = wide.remove_possibility(&source("X"), &table).unwrap();
    let back = back.remove_possibility(&source("Z"), &table).unwrap();
    assert_eq!(back.value, UnionValue { tag: 1, payload: 3u64 });
    assert_eq!(back.args, args);
}

#[test]
fn test_end_to_end_scenario() {
    // Declaration with variants A(X), B(Y), C(Z): a value built as variant A
    // survives widening to [X, Y, Z] and narrowing away Y and Z in either
    // order, ending back at the bare payload via extraction.
    let (_, table) = build_variant_table(three_variant_decl()).unwrap();
    let two = resolve_notation(&vec![source("X"), source("Y")], &table).unwrap();
    let full = apply_widening(&two, &source("Z"), &table).unwrap();

    for order in [[source("Y"), source("Z")], [source("Z"), source("Y")]] {
        let built = TypedUnionValue::from_payload(&table, full.clone(), &source("X"), 42u64);
        let narrowed = built.remove_possibility(&order[0], &table).unwrap();
        let narrowed = narrowed.remove_possibility(&order[1], &table).unwrap();
        assert_eq!(narrowed.args, vec![source("X"), TypeExpr::Never, TypeExpr::Never]);
        // Extraction of the one remaining possibility hands the payload back.
        match narrowed.remove_possibility(&source("X"), &table) {
            Err(payload) => assert_eq!(payload, 42u64),
            Ok(_) => panic!("extracting the held variant must yield the payload"),
        }
    }
}

#[test]
fn test_rewritten_decl_survives_second_expansion_check() {
    // The rewritten declaration is itself parametrized, so feeding it back
    // is rejected for its generics: the generator owns parametrization.
    let expansion = powerset_enum_impl(three_variant_decl()).unwrap();
    assert_eq!(powerset_enum_impl(expansion.decl), Err(GenError::UnsupportedGenerics));
}

#[test]
fn test_empty_declaration_expands_to_nothing() {
    // A declaration without variants is accepted; every per-variant list is
    // empty and the notation resolves only the empty list.
    let decl = EnumDecl { name: "Silent".to_string(), generics: vec![], variants: vec![] };
    let expansion = powerset_enum_impl(decl).unwrap();
    assert_eq!(expansion.widening.len(), 0);
    assert_eq!(expansion.conversions.len(), 0);
    assert_eq!(expansion.narrowing.len(), 0);
    assert_eq!(expansion.upcast.n_steps, 0);
    assert_eq!(expansion.macro_def.empty_args, vec![]);
}

#[test]
fn test_duplicate_payload_types_resolve_to_first_position() {
    // Payload types are assumed pairwise distinct; when they are not, every
    // lookup lands deterministically on the first position carrying the type.
    let decl = EnumDecl {
        name: "Twice".to_string(),
        generics: vec![],
        variants: vec![variant("A", source("X")), variant("B", source("X"))],
    };
    let (_, table) = build_variant_table(decl).unwrap();
    assert_eq!(find_payload_position(&table, &source("X")), 0);
    let resolved = resolve_notation(&vec![source("X"), source("X")], &table);
    assert_eq!(resolved, Some(vec![source("X"), TypeExpr::Never]));
}
