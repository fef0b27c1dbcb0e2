use random_test_cli::ast::{
    DocCharSetSpec, DocConstraint, DocExpectedType, DocExpression, DocLiteral, DocNodeKind,
    DocPropertyTag, DocReference, DocStructureNode,
};
use random_test_cli::generable::{
    any_simple_graph, constraint_generable, constraints_generable, generation_is_safe,
    structure_nesting_is_finite,
};

fn target() -> DocReference {
    DocReference::VariableRef(1)
}

fn range(upper: DocExpression) -> DocConstraint {
    DocConstraint::Range { target: target(), lower: DocExpression::Lit(0), upper }
}

fn simple() -> DocConstraint {
    DocConstraint::Property { target: target(), tag: DocPropertyTag::Simple }
}

fn length(min: i64, max: i64) -> DocConstraint {
    DocConstraint::StringLength {
        target: target(),
        min: DocExpression::Lit(min),
        max: DocExpression::Lit(max),
    }
}

#[test]
fn character_ranges_must_run_forward() {
    let c = |a, b| DocConstraint::CharSet { target: target(), charset: DocCharSetSpec::Range(a, b) };
    assert!(constraint_generable(&c('a', 'z'), false));
    assert!(constraint_generable(&c('k', 'k'), false));
    assert!(!constraint_generable(&c('z', 'a'), false));
}

#[test]
fn string_lengths_need_a_nonzero_literal_bound() {
    assert!(constraint_generable(&length(1, 5), false));
    assert!(constraint_generable(&length(0, 3), false));
    assert!(constraint_generable(&length(5, 0), false));
    assert!(constraint_generable(&length(-2, -1), false));
    assert!(!constraint_generable(&length(0, 0), false));
    assert!(!constraint_generable(&length(-4, 0), false));
    let formula = DocConstraint::StringLength {
        target: target(),
        min: DocExpression::Lit(1),
        max: DocExpression::Var(DocReference::VariableRef(0)),
    };
    assert!(!constraint_generable(&formula, false));
}

#[test]
fn range_uppers_matter_only_beside_a_simple_graph() {
    assert!(constraint_generable(&range(DocExpression::Lit(0)), false));
    assert!(!constraint_generable(&range(DocExpression::Lit(0)), true));
    assert!(constraint_generable(&range(DocExpression::Lit(-3)), true));
    assert!(constraint_generable(&range(DocExpression::Lit(7)), true));
    assert!(!constraint_generable(&range(DocExpression::Var(target())), true));
    let decl = DocConstraint::TypeDecl { target: target(), expected: DocExpectedType::Int };
    assert!(constraint_generable(&decl, true));
}

#[test]
fn an_arena_is_generable_when_every_constraint_is() {
    assert!(constraints_generable(&vec![]));
    assert!(constraints_generable(&vec![None, Some(range(DocExpression::Lit(0)))]));
    assert!(!any_simple_graph(&vec![None, Some(range(DocExpression::Lit(0)))]));
    let graph = vec![Some(range(DocExpression::Lit(0))), None, Some(simple())];
    assert!(any_simple_graph(&graph));
    assert!(!constraints_generable(&graph));
    assert!(constraints_generable(&vec![Some(simple()), Some(range(DocExpression::Lit(9)))]));
    assert!(!constraints_generable(&vec![Some(length(1, 2)), Some(length(0, 0))]));
}

fn node(id: u64, kind: DocNodeKind) -> Option<DocStructureNode> {
    Some(DocStructureNode { id, kind })
}

fn scalar(id: u64) -> Option<DocStructureNode> {
    node(id, DocNodeKind::Scalar { name: format!("V{id}") })
}

fn repeat(id: u64, body: Vec<u64>) -> Option<DocStructureNode> {
    node(id, DocNodeKind::Repeat { count: DocExpression::Lit(2), index_var: None, body })
}

#[test]
fn a_tree_shaped_structure_is_finite() {
    assert!(structure_nesting_is_finite(&vec![]));
    let nodes = vec![
        node(0, DocNodeKind::Sequence { children: vec![1, 2] }),
        scalar(1),
        repeat(2, vec![3]),
        node(3, DocNodeKind::Tuple { elements: vec![4, 5, 9] }),
        scalar(4),
        None,
    ];
    assert!(structure_nesting_is_finite(&nodes));
    assert!(generation_is_safe(&nodes, &vec![Some(length(1, 3))]));
    assert!(!generation_is_safe(&nodes, &vec![Some(length(0, 0))]));
}

#[test]
fn a_node_under_itself_makes_the_structure_infinite() {
    let self_loop = vec![node(0, DocNodeKind::Tuple { elements: vec![0] })];
    assert!(!structure_nesting_is_finite(&self_loop));
    let cycle = vec![
        node(0, DocNodeKind::Sequence { children: vec![1] }),
        repeat(1, vec![2]),
        node(2, DocNodeKind::Section { header: None, body: vec![3] }),
        node(
            3,
            DocNodeKind::Choice {
                tag: DocReference::VariableRef(0),
                variants: vec![(DocLiteral::IntLit(1), vec![]), (DocLiteral::IntLit(2), vec![1])],
            },
        ),
    ];
    assert!(!structure_nesting_is_finite(&cycle));
    assert!(!generation_is_safe(&cycle, &vec![]));
    let header_cycle = vec![node(0, DocNodeKind::Section { header: Some(0), body: vec![] })];
    assert!(!structure_nesting_is_finite(&header_cycle));
}

#[test]
fn a_long_chain_still_counts_as_finite() {
    let mut nodes = Vec::new();
    for id in 0..30u64 {
        nodes.push(repeat(id, if id + 1 < 30 { vec![id + 1] } else { vec![] }));
    }
    assert!(structure_nesting_is_finite(&nodes));
    nodes[29] = repeat(29, vec![0]);
    assert!(!structure_nesting_is_finite(&nodes));
}
