use random_test_cli::ast::{
    AstDocument, DocConstraint, DocExpectedType, DocExpression, DocNodeKind, DocReference, DocSeparator,
};
use random_test_cli::ast_dto::{
    dto_to_expr, envelope_to_engine, parse_node_ids, parse_u64, unknown, AstDocumentDto, AstDocumentEnvelope,
    AstDtoError, ByNodeEntryDto, ConstraintDto, ConstraintEntryDto, ConstraintSetDto,
    ExpressionDto, NodeKindDto, ReferenceDto, RenderHintKindDto, StructureAstDto,
    StructureNodeDto,
};

fn var(id: &str) -> ReferenceDto {
    ReferenceDto::VariableRef { node_id: id.to_string() }
}

fn minimal_envelope() -> AstDocumentEnvelope {
    AstDocumentEnvelope {
        schema_version: 1,
        document: AstDocumentDto {
            structure: StructureAstDto {
                root: "0".to_string(),
                next_id: "2".to_string(),
                arena: vec![
                    Some(StructureNodeDto {
                        id: "0".to_string(),
                        kind: NodeKindDto::Sequence { children: vec!["1".to_string()] },
                    }),
                    Some(StructureNodeDto {
                        id: "1".to_string(),
                        kind: NodeKindDto::Scalar { name: "N".to_string() },
                    }),
                ],
            },
            constraints: ConstraintSetDto {
                next_id: "2".to_string(),
                arena: vec![
                    Some(ConstraintEntryDto {
                        id: "0".to_string(),
                        constraint: ConstraintDto::TypeDecl {
                            target: var("1"),
                            expected: "Int".to_string(),
                        },
                    }),
                    Some(ConstraintEntryDto {
                        id: "1".to_string(),
                        constraint: ConstraintDto::Range {
                            target: var("1"),
                            lower: ExpressionDto::Lit { value: 1 },
                            upper: ExpressionDto::Lit { value: 3 },
                        },
                    }),
                ],
                by_node: vec![ByNodeEntryDto {
                    node_id: "1".to_string(),
                    constraints: vec!["0".to_string(), "1".to_string()],
                }],
                global: vec![],
            },
        },
    }
}

fn occupied_nodes(doc: &AstDocument) -> usize {
    doc.structure.arena.iter().filter(|s| s.is_some()).count()
}

fn occupied_constraints(doc: &AstDocument) -> usize {
    doc.constraints.arena.iter().filter(|s| s.is_some()).count()
}

#[test]
fn restores_minimal_scalar_engine() {
    let engine = envelope_to_engine(&minimal_envelope()).unwrap();
    assert_eq!(occupied_nodes(&engine), 2);
    assert_eq!(occupied_constraints(&engine), 2);
}

#[test]
fn minimal_document_contents() {
    let doc = envelope_to_engine(&minimal_envelope()).unwrap();
    assert_eq!(doc.structure.root, 0);
    assert_eq!(doc.structure.next_id, 2);
    match &doc.structure.arena[0] {
        Some(n) => {
            assert_eq!(n.id, 0);
            assert!(matches!(&n.kind, DocNodeKind::Sequence { children } if children == &vec![1]));
        }
        None => panic!("slot 0 is empty"),
    }
    match &doc.constraints.arena[0] {
        Some(DocConstraint::TypeDecl { target: DocReference::VariableRef(1), expected }) => {
            assert_eq!(*expected, DocExpectedType::Int)
        }
        other => panic!("unexpected {:?}", other),
    }
    match &doc.constraints.arena[1] {
        Some(DocConstraint::Range { lower: DocExpression::Lit(1), upper: DocExpression::Lit(3), .. }) => {}
        other => panic!("unexpected {:?}", other),
    }
    assert_eq!(doc.constraints.by_node, vec![(1, vec![0, 1])]);
}

#[test]
fn rejects_other_schema_versions() {
    let mut e = minimal_envelope();
    e.schema_version = 2;
    assert!(matches!(envelope_to_engine(&e), Err(AstDtoError::UnsupportedVersion(2))));
}

#[test]
fn rejects_bad_ids_and_misplaced_slots() {
    let mut e = minimal_envelope();
    e.document.structure.root = "x".to_string();
    assert!(matches!(envelope_to_engine(&e), Err(AstDtoError::InvalidId(s)) if s == "x"));

    let mut e = minimal_envelope();
    e.document.structure.arena[1] = Some(StructureNodeDto {
        id: "5".to_string(),
        kind: NodeKindDto::Scalar { name: "N".to_string() },
    });
    assert!(matches!(
        envelope_to_engine(&e),
        Err(AstDtoError::IdIndexMismatch { expected: 1, actual: 5 })
    ));

    let mut e = minimal_envelope();
    e.document.structure.arena.insert(0, None);
    assert!(matches!(
        envelope_to_engine(&e),
        Err(AstDtoError::IdIndexMismatch { expected: 1, actual: 0 })
    ));
}

#[test]
fn reports_unknown_names() {
    let mut e = minimal_envelope();
    e.document.constraints.arena.push(Some(ConstraintEntryDto {
        id: "2".to_string(),
        constraint: ConstraintDto::RenderHint {
            target: var("1"),
            hint: RenderHintKindDto::Separator { value: "Comma".to_string() },
        },
    }));
    match envelope_to_engine(&e) {
        Err(AstDtoError::UnknownVariant { enum_name, value }) => {
            assert_eq!(enum_name, "Separator");
            assert_eq!(value, "Comma");
        }
        other => panic!("unexpected {:?}", other),
    }
}

#[test]
fn first_failure_is_reported() {
    let mut e = minimal_envelope();
    e.document.constraints.arena[0] = Some(ConstraintEntryDto {
        id: "0".to_string(),
        constraint: ConstraintDto::Relation {
            lhs: ExpressionDto::Var { reference: var("q") },
            op: "Bogus".to_string(),
            rhs: ExpressionDto::Lit { value: 0 },
        },
    });
    assert!(matches!(envelope_to_engine(&e), Err(AstDtoError::InvalidId(s)) if s == "q"));
}

#[test]
fn reads_separators_and_expressions() {
    let mut e = minimal_envelope();
    e.document.constraints.arena.push(Some(ConstraintEntryDto {
        id: "2".to_string(),
        constraint: ConstraintDto::RenderHint {
            target: var("1"),
            hint: RenderHintKindDto::Separator { value: "None".to_string() },
        },
    }));
    e.document.constraints.arena.push(Some(ConstraintEntryDto {
        id: "3".to_string(),
        constraint: ConstraintDto::Guarantee {
            description: "d".to_string(),
            predicate: Some(ExpressionDto::FnCall {
                name: "min".to_string(),
                args: vec![
                    ExpressionDto::Pow {
                        base: Box::new(ExpressionDto::Lit { value: 10 }),
                        exp: Box::new(ExpressionDto::Lit { value: 9 }),
                    },
                    ExpressionDto::BinOp {
                        op: "Mul".to_string(),
                        lhs: Box::new(ExpressionDto::Lit { value: 2 }),
                        rhs: Box::new(ExpressionDto::Var { reference: var("1") }),
                    },
                ],
            }),
        },
    }));
    let doc = envelope_to_engine(&e).unwrap();
    assert!(matches!(
        &doc.constraints.arena[2],
        Some(DocConstraint::RenderHint { hint: random_test_cli::ast::DocRenderHintKind::Separator(DocSeparator::NoSeparator), .. })
    ));
    match &doc.constraints.arena[3] {
        Some(DocConstraint::Guarantee { description, predicate: Some(DocExpression::FnCall { name, args }) }) => {
            assert_eq!(description, "d");
            assert_eq!(name, "min");
            assert_eq!(args.len(), 2);
        }
        other => panic!("unexpected {:?}", other),
    }
}

#[test]
fn parses_ids() {
    assert_eq!(parse_u64("42").unwrap(), 42);
    assert_eq!(parse_u64("+7").unwrap(), 7);
    assert!(matches!(parse_u64("+"), Err(AstDtoError::InvalidId(s)) if s == "+"));
    assert!(matches!(parse_u64("-1"), Err(AstDtoError::InvalidId(_))));
    assert!(matches!(parse_u64(""), Err(AstDtoError::InvalidId(_))));
    assert!(matches!(parse_u64("18446744073709551616"), Err(AstDtoError::InvalidId(_))));
    assert_eq!(parse_u64("18446744073709551615").unwrap(), u64::MAX);
    assert_eq!(
        parse_node_ids(&vec!["1".to_string(), "02".to_string()]).unwrap(),
        vec![1, 2]
    );
    assert!(matches!(
        parse_node_ids(&vec!["1".to_string(), "a".to_string(), "b".to_string()]),
        Err(AstDtoError::InvalidId(s)) if s == "a"
    ));
    match unknown::<u8>("SortOrder", "Up") {
        Err(AstDtoError::UnknownVariant { enum_name, value }) => {
            assert_eq!(enum_name, "SortOrder");
            assert_eq!(value, "Up");
        }
        other => panic!("unexpected {:?}", other),
    }
}

#[test]
fn reads_expressions_in_order() {
    let e = ExpressionDto::BinOp {
        op: "Add".to_string(),
        lhs: Box::new(ExpressionDto::Lit { value: 4 }),
        rhs: Box::new(ExpressionDto::Var { reference: var("2") }),
    };
    match dto_to_expr(&e).unwrap() {
        DocExpression::BinOp { lhs, rhs, .. } => {
            assert!(matches!(*lhs, DocExpression::Lit(4)));
            assert!(matches!(*rhs, DocExpression::Var(DocReference::VariableRef(2))));
        }
        other => panic!("unexpected {:?}", other),
    }
    let bad = ExpressionDto::BinOp {
        op: "Pow".to_string(),
        lhs: Box::new(ExpressionDto::Var { reference: var("x") }),
        rhs: Box::new(ExpressionDto::Lit { value: 1 }),
    };
    match dto_to_expr(&bad) {
        Err(AstDtoError::UnknownVariant { enum_name, value }) => {
            assert_eq!(enum_name, "ArithOp");
            assert_eq!(value, "Pow");
        }
        other => panic!("unexpected {:?}", other),
    }
    let args = ExpressionDto::FnCall {
        name: "max".to_string(),
        args: vec![ExpressionDto::Lit { value: 1 }, ExpressionDto::Var { reference: var("y") }],
    };
    assert!(matches!(dto_to_expr(&args), Err(AstDtoError::InvalidId(s)) if s == "y"));
}
