//! End-to-end tests of the pick/omit engine on concrete declarations.

use type_utils::expand;
use type_utils::model::Action;
use type_utils::model::ActionKind;
use type_utils::model::Attr;
use type_utils::model::Delim;
use type_utils::model::Field;
use type_utils::model::InputData;
use type_utils::model::Members;
use type_utils::model::ShapeKind;
use type_utils::model::Tok;
use type_utils::model::TuError;
use type_utils::model::TypeShape;
use type_utils::model::TypeUtils;
use type_utils::model::TypeDecl;
use type_utils::model::Variant;
use type_utils::model::Visibility;

fn ident(s: &str) -> Tok {
    Tok::Ident(String::from(s))
}

fn comma() -> Tok {
    Tok::Punct(',')
}

fn paren(toks: Vec<Tok>) -> Tok {
    Tok::Group(Delim::Paren, toks)
}

fn brace(toks: Vec<Tok>) -> Tok {
    Tok::Group(Delim::Brace, toks)
}

fn attr(path: &str, toks: Vec<Tok>) -> Attr {
    Attr { path: vec![String::from(path)], toks }
}

fn field(name: &str, vis: Visibility, ty: &str) -> Field {
    Field { name: String::from(name), vis, ty: String::from(ty) }
}

fn variant(name: &str, payload: &str) -> Variant {
    Variant { name: String::from(name), payload: String::from(payload) }
}

fn record_abc() -> InputData {
    InputData::Record(vec![
        field("a", Visibility::Inherited, "i32"),
        field("b", Visibility::Public, "i32"),
        field("c", Visibility::Inherited, "i32"),
    ])
}

fn union_abc() -> InputData {
    InputData::TaggedUnion(vec![
        variant("A", ""),
        variant("B", "(i32)"),
        variant("C", "{ x: u8 }"),
    ])
}

/// `pick(Name { sel... })` with a plain selection of member names.
fn pick_attr(name: &str, sel: Vec<Tok>) -> Attr {
    attr("pick", vec![paren(vec![ident(name), brace(sel)])])
}

fn omit_attr(name: &str, sel: Vec<Tok>) -> Attr {
    attr("omit", vec![paren(vec![ident(name), brace(sel)])])
}

fn field_names(decl: &TypeDecl) -> Vec<String> {
    match &decl.members {
        Members::Fields(fs) => fs.iter().map(|f| f.name.clone()).collect(),
        Members::Variants(_) => panic!("expected fields"),
    }
}

fn variant_names(decl: &TypeDecl) -> Vec<String> {
    match &decl.members {
        Members::Variants(vs) => vs.iter().map(|v| v.name.clone()).collect(),
        Members::Fields(_) => panic!("expected variants"),
    }
}

#[test]
fn pick_and_omit_on_record() {
    // original record {a, b, c}; pick(S1 {a, b}) and omit(S2 {a})
    let attrs = vec![
        pick_attr("S1", vec![ident("a"), comma(), ident("b")]),
        omit_attr("S2", vec![ident("a")]),
    ];
    let decls = expand(String::from("S"), record_abc(), attrs).unwrap();
    assert_eq!(decls.len(), 2);

    assert_eq!(decls[0].name, "S1");
    assert_eq!(decls[0].vis, Visibility::Inherited);
    match &decls[0].members {
        Members::Fields(fs) => {
            assert_eq!(fs.len(), 2);
            assert_eq!(fs[0], field("a", Visibility::Inherited, "i32"));
            assert_eq!(fs[1], field("b", Visibility::Public, "i32"));
        },
        _ => panic!("expected fields"),
    }

    assert_eq!(decls[1].name, "S2");
    match &decls[1].members {
        Members::Fields(fs) => {
            assert_eq!(fs.len(), 2);
            assert_eq!(fs[0], field("b", Visibility::Public, "i32"));
            assert_eq!(fs[1], field("c", Visibility::Inherited, "i32"));
        },
        _ => panic!("expected fields"),
    }
}

#[test]
fn pick_and_omit_on_tagged_union() {
    // original tagged union {A, B, C}; pick(E1 {A, B}) and omit(E2 {A})
    let attrs = vec![
        pick_attr("E1", vec![ident("A"), comma(), ident("B")]),
        omit_attr("E2", vec![ident("A")]),
    ];
    let decls = expand(String::from("E"), union_abc(), attrs).unwrap();
    assert_eq!(decls.len(), 2);
    assert_eq!(decls[0].name, "E1");
    assert_eq!(variant_names(&decls[0]), vec!["A", "B"]);
    match &decls[0].members {
        Members::Variants(vs) => {
            assert_eq!(vs[0], variant("A", ""));
            assert_eq!(vs[1], variant("B", "(i32)"));
        },
        _ => panic!("expected variants"),
    }
    assert_eq!(decls[1].name, "E2");
    assert_eq!(variant_names(&decls[1]), vec!["B", "C"]);
}

#[test]
fn output_order_follows_original_not_selection() {
    // the selection names c and a in reverse order; the output keeps the
    // original declaration order a, c
    let attrs = vec![pick_attr("S1", vec![ident("c"), comma(), ident("a")])];
    let decls = expand(String::from("S"), record_abc(), attrs).unwrap();
    assert_eq!(field_names(&decls[0]), vec!["a", "c"]);

    let attrs = vec![pick_attr("E1", vec![ident("C"), comma(), ident("A")])];
    let decls = expand(String::from("E"), union_abc(), attrs).unwrap();
    assert_eq!(variant_names(&decls[0]), vec!["A", "C"]);
}

#[test]
fn pick_and_omit_partition_the_original_members() {
    // one selection set, applied once as pick and once as omit: together
    // the outputs hold every original member exactly once
    let sel1 = vec![ident("b")];
    let sel2 = vec![ident("b")];
    let attrs = vec![pick_attr("P", sel1), omit_attr("O", sel2)];
    let decls = expand(String::from("S"), record_abc(), attrs).unwrap();
    let picked = field_names(&decls[0]);
    let omitted = field_names(&decls[1]);
    assert_eq!(picked, vec!["b"]);
    assert_eq!(omitted, vec!["a", "c"]);
    for name in ["a", "b", "c"] {
        let in_pick = picked.iter().any(|n| n == name);
        let in_omit = omitted.iter().any(|n| n == name);
        assert!(in_pick ^ in_omit);
    }
}

#[test]
fn visibility_override_applies_to_pick() {
    // pick(pub(self) S1 {pub a, pub(self) b}): the output type and the
    // selected fields carry the written visibilities
    let body = paren(vec![
        ident("pub"),
        paren(vec![ident("self")]),
        ident("S1"),
        brace(vec![
            ident("pub"),
            ident("a"),
            comma(),
            ident("pub"),
            paren(vec![ident("self")]),
            ident("b"),
        ]),
    ]);
    let attrs = vec![attr("pick", vec![body])];
    let decls = expand(String::from("S"), record_abc(), attrs).unwrap();
    assert_eq!(decls[0].vis, Visibility::Restricted(vec![ident("self")]));
    match &decls[0].members {
        Members::Fields(fs) => {
            assert_eq!(fs[0], field("a", Visibility::Public, "i32"));
            assert_eq!(fs[1], field("b", Visibility::Restricted(vec![ident("self")]), "i32"));
        },
        _ => panic!("expected fields"),
    }
}

#[test]
fn visibility_override_has_no_effect_on_omit() {
    // omit {pub a} behaves exactly like omit {a}
    let with_override = vec![omit_attr("S2", vec![ident("pub"), ident("a")])];
    let without = vec![omit_attr("S2", vec![ident("a")])];
    let d1 = expand(String::from("S"), record_abc(), with_override).unwrap();
    let d2 = expand(String::from("S"), record_abc(), without).unwrap();
    assert_eq!(d1, d2);
}

#[test]
fn unoverridden_pick_keeps_original_field_visibility() {
    let attrs = vec![pick_attr("S1", vec![ident("b")])];
    let decls = expand(String::from("S"), record_abc(), attrs).unwrap();
    match &decls[0].members {
        Members::Fields(fs) => assert_eq!(fs[0].vis, Visibility::Public),
        _ => panic!("expected fields"),
    }
}

#[test]
fn generics_are_copied_verbatim() {
    let body = paren(vec![
        ident("S1"),
        Tok::Punct('<'),
        ident("T"),
        Tok::Punct('>'),
        ident("where"),
        ident("T"),
        Tok::Punct(':'),
        ident("Clone"),
        brace(vec![ident("a")]),
    ]);
    let attrs = vec![attr("pick", vec![body])];
    let decls = expand(String::from("S"), record_abc(), attrs).unwrap();
    assert_eq!(
        decls[0].generics,
        vec![
            Tok::Punct('<'),
            ident("T"),
            Tok::Punct('>'),
            ident("where"),
            ident("T"),
            Tok::Punct(':'),
            ident("Clone"),
        ]
    );
}

#[test]
fn action_on_tuple_like_original_is_unsupported() {
    let attrs = vec![pick_attr("S1", vec![ident("a")])];
    let err = expand(String::from("S"), InputData::Tuple(2), attrs).unwrap_err();
    assert_eq!(
        err,
        TuError::UnsupportedKindForAction {
            action_kind: ActionKind::Pick,
            shape_kind: ShapeKind::Tuple,
        }
    );
}

#[test]
fn action_on_unit_like_original_is_unsupported() {
    let attrs = vec![omit_attr("S2", vec![ident("a")])];
    let err = expand(String::from("S"), InputData::Unit, attrs).unwrap_err();
    assert_eq!(
        err,
        TuError::UnsupportedKindForAction {
            action_kind: ActionKind::Omit,
            shape_kind: ShapeKind::Unit,
        }
    );
}

#[test]
fn unknown_member_names_the_member_and_the_action() {
    let attrs = vec![pick_attr("S1", vec![ident("zzz")])];
    let err = expand(String::from("S"), record_abc(), attrs).unwrap_err();
    assert_eq!(
        err,
        TuError::UnknownMember {
            member: String::from("zzz"),
            action: String::from("S1"),
            original: String::from("S"),
        }
    );
}

#[test]
fn unknown_variant_in_tagged_union() {
    let attrs = vec![omit_attr("E2", vec![ident("Z")])];
    let err = expand(String::from("E"), union_abc(), attrs).unwrap_err();
    assert_eq!(
        err,
        TuError::UnknownMember {
            member: String::from("Z"),
            action: String::from("E2"),
            original: String::from("E"),
        }
    );
}

#[test]
fn validation_reports_the_first_invalid_action() {
    // the first action references an unknown member; the second action is
    // valid; the verdict is the first action's error
    let attrs = vec![
        pick_attr("Bad", vec![ident("zzz")]),
        pick_attr("Good", vec![ident("a")]),
    ];
    let err = expand(String::from("S"), record_abc(), attrs).unwrap_err();
    assert_eq!(
        err,
        TuError::UnknownMember {
            member: String::from("zzz"),
            action: String::from("Bad"),
            original: String::from("S"),
        }
    );

    // swapping the two actions still reports the earlier one
    let attrs = vec![
        pick_attr("Good", vec![ident("a")]),
        pick_attr("Bad", vec![ident("zzz")]),
    ];
    let err = expand(String::from("S"), record_abc(), attrs).unwrap_err();
    assert_eq!(
        err,
        TuError::UnknownMember {
            member: String::from("zzz"),
            action: String::from("Bad"),
            original: String::from("S"),
        }
    );
}

#[test]
fn no_actions_is_an_error() {
    let err = expand(String::from("S"), record_abc(), vec![]).unwrap_err();
    assert_eq!(err, TuError::NoActionsSpecified);

    // a passthrough annotation alone does not count as an action
    let attrs = vec![attr("serde", vec![paren(vec![ident("rename")])])];
    let err = expand(String::from("S"), record_abc(), attrs).unwrap_err();
    assert_eq!(err, TuError::NoActionsSpecified);
}

#[test]
fn union_of_overlapping_storage_is_rejected() {
    let attrs = vec![pick_attr("S1", vec![ident("a")])];
    let err = expand(String::from("U"), InputData::Union, attrs).unwrap_err();
    assert_eq!(err, TuError::UnsupportedDataKind);
}

#[test]
fn capabilities_attach_to_the_following_action() {
    // two capability lists before one action concatenate, in order, into
    // that action's capability annotation; the later action gets none
    let attrs = vec![
        attr("tu_derive", vec![paren(vec![ident("Clone"), comma(), ident("Debug")])]),
        attr("tu_derive", vec![paren(vec![ident("Hash")])]),
        pick_attr("S1", vec![ident("a")]),
        omit_attr("S2", vec![ident("a")]),
    ];
    let decls = expand(String::from("S"), record_abc(), attrs).unwrap();
    assert_eq!(decls[0].attrs.len(), 1);
    assert_eq!(
        decls[0].attrs[0],
        attr(
            "derive",
            vec![paren(vec![
                ident("Clone"),
                comma(),
                ident("Debug"),
                comma(),
                ident("Hash"),
            ])]
        )
    );
    // the capability list was consumed by the first action
    assert_eq!(decls[1].attrs.len(), 0);
}

#[test]
fn dangling_capability_list_is_an_error() {
    // a capability list with nothing after it
    let attrs = vec![attr("tu_derive", vec![paren(vec![ident("Clone")])])];
    let err = expand(String::from("S"), record_abc(), attrs).unwrap_err();
    assert_eq!(err, TuError::DanglingCapabilityList);

    // also when it follows the last action
    let attrs = vec![
        pick_attr("S1", vec![ident("a")]),
        attr("tu_derive", vec![paren(vec![ident("Clone")])]),
    ];
    let err = expand(String::from("S"), record_abc(), attrs).unwrap_err();
    assert_eq!(err, TuError::DanglingCapabilityList);
}

#[test]
fn passthrough_annotations_are_copied_to_every_output() {
    let passthrough = attr("serde", vec![paren(vec![ident("rename_all")])]);
    let attrs = vec![
        passthrough.clone(),
        attr("tu_derive", vec![paren(vec![ident("Clone")])]),
        pick_attr("S1", vec![ident("a")]),
        omit_attr("S2", vec![ident("a")]),
    ];
    let decls = expand(String::from("S"), record_abc(), attrs).unwrap();
    // every output starts with the passthrough list; the capability
    // annotation, when present, comes last
    assert_eq!(decls[0].attrs.len(), 2);
    assert_eq!(decls[0].attrs[0], passthrough);
    assert_eq!(decls[0].attrs[1], attr("derive", vec![paren(vec![ident("Clone")])]));
    assert_eq!(decls[1].attrs.len(), 1);
    assert_eq!(decls[1].attrs[0], passthrough);
}

#[test]
fn payload_types_are_copied_verbatim() {
    let data = InputData::Record(vec![
        field("a", Visibility::Inherited, "Vec<Box<dyn Send>>"),
        field("b", Visibility::Inherited, "i32"),
    ]);
    let attrs = vec![pick_attr("S1", vec![ident("a")])];
    let decls = expand(String::from("S"), data, attrs).unwrap();
    match &decls[0].members {
        Members::Fields(fs) => assert_eq!(fs[0].ty, "Vec<Box<dyn Send>>"),
        _ => panic!("expected fields"),
    }
}

#[test]
fn build_exposes_the_parsed_request() {
    let attrs = vec![
        attr("tu_derive", vec![paren(vec![ident("Clone")])]),
        pick_attr("S1", vec![ident("a"), comma(), ident("b")]),
        attr("other", vec![]),
    ];
    let req = TypeUtils::build(String::from("S"), record_abc(), attrs).unwrap();
    assert_eq!(req.ident, "S");
    assert_eq!(req.actions.len(), 1);
    let action = &req.actions[0];
    assert_eq!(action.kind, ActionKind::Pick);
    assert_eq!(action.name, "S1");
    assert_eq!(action.capabilities, vec![String::from("Clone")]);
    assert_eq!(action.selection.len(), 2);
    assert_eq!(action.selection[0].name, "a");
    assert_eq!(action.selection[1].name, "b");
    assert_eq!(req.attrs, vec![attr("other", vec![])]);

    let decls = req.into_items().unwrap();
    assert_eq!(decls.len(), 1);
    assert_eq!(field_names(&decls[0]), vec!["a", "b"]);
}

#[test]
fn synthesis_reports_an_internal_mismatch_distinctly() {
    // an action that skipped validation and meets an incompatible shape is
    // an internal-consistency error, not a malformed declaration
    let action = Action {
        kind: ActionKind::Pick,
        capabilities: vec![],
        name: String::from("S1"),
        vis: Visibility::Inherited,
        generics: vec![],
        selection: vec![type_utils::model::SelectedMember {
            name: String::from("a"),
            vis: Visibility::Inherited,
        }],
    };
    let err = action.into_item(&TypeShape::Unit, &vec![]).unwrap_err();
    assert_eq!(
        err,
        TuError::InternalShapeMismatch {
            action_kind: ActionKind::Pick,
            shape_kind: ShapeKind::Unit,
        }
    );
}

#[test]
fn shape_and_action_kinds_display_their_words() {
    assert_eq!(TypeShape::Record(vec![]).display(), "struct");
    assert_eq!(TypeShape::Tuple(2).display(), "tuple struct");
    assert_eq!(TypeShape::Unit.display(), "unit struct");
    assert_eq!(TypeShape::TaggedUnion(vec![]).display(), "enum");
    assert_eq!(ActionKind::Pick.display(), "pick");
    assert_eq!(ActionKind::Omit.display(), "omit");
}

#[test]
fn duplicate_selection_entries_use_the_first_override() {
    // {a, pub a}: the first entry has no override, so the field keeps its
    // original visibility
    let attrs = vec![pick_attr(
        "S1",
        vec![ident("a"), comma(), ident("pub"), ident("a")],
    )];
    let decls = expand(String::from("S"), record_abc(), attrs).unwrap();
    match &decls[0].members {
        Members::Fields(fs) => {
            assert_eq!(fs.len(), 1);
            assert_eq!(fs[0].vis, Visibility::Inherited);
        },
        _ => panic!("expected fields"),
    }
}
