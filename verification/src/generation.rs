//! The calls into cp-ast-json and cp-ast-core that turn a share state into
//! sample text. Each value handed back remembers, in plain fields that only
//! this module can set, the state and seed it was made from.
use vstd::prelude::*;

use cp_ast_core::constraint as cc;
use cp_ast_core::operation::AstEngine;
use cp_ast_core::sample::{GeneratedSample, GenerationError};
use cp_ast_core::structure as cs;
use cp_ast_json::ConversionError;

use crate::ast::{
    DocArithOp, DocCharSetSpec, DocConstraint, DocDistinctUnit, DocExpectedType, DocExpression,
    DocLiteral, DocNodeKind, DocNodeKindHint, DocPropertyTag, DocReference, DocRelationOp,
    DocRenderHintKind, DocSeparator, DocSortOrder, DocStructureNode,
};
use crate::generable::{generation_is_safe_spec, structure_is_finite};

verus! {

/// Whether `cp_ast_json::deserialize_share_state` accepts `state` (base64url,
/// gzip, then a valid AST document).
pub open spec fn share_state_decodes(state: Seq<char>) -> bool {
    share_state_document(state) is Some
}

/// Whether `state` decodes to a document that passes `generation_is_safe_spec`.
pub open spec fn share_state_generable(state: Seq<char>) -> bool {
    match share_state_document(state) {
        Some((nodes, constraints)) => generation_is_safe_spec(nodes, constraints),
        None => false,
    }
}

/// Holds when generating a sample, with `seed`, from the document that `state`
/// decodes to can end in a generation error. It relates rather than computes:
/// the generator walks hash maps in an order that each run seeds, so one state
/// and seed do not always give the same outcome.
pub uninterp spec fn generation_can_fail(state: Seq<char>, seed: u64) -> bool;

/// Holds when `text` is a text that rendering a sample generated, with `seed`,
/// from the document that `state` decodes to can give (several texts may).
pub uninterp spec fn sample_text_of(state: Seq<char>, seed: u64, text: Seq<char>) -> bool;


/// Converts a cp-ast-core reference into the library's, field for field.
#[verifier::external_body]
fn reference_of(r: &cs::Reference) -> DocReference {
    match r {
        cs::Reference::VariableRef(n) => DocReference::VariableRef(n.value()),
        cs::Reference::IndexedRef { target, indices } => DocReference::IndexedRef {
            target: target.value(),
            indices: indices.iter().map(|i| i.as_str().to_owned()).collect(),
        },
        cs::Reference::Unresolved(n) => DocReference::Unresolved(n.as_str().to_owned()),
    }
}

/// Converts a cp-ast-core arithmetic operator into the library's.
#[verifier::external_body]
fn arith_op_of(o: &cc::ArithOp) -> DocArithOp {
    match o {
        cc::ArithOp::Add => DocArithOp::Add,
        cc::ArithOp::Sub => DocArithOp::Sub,
        cc::ArithOp::Mul => DocArithOp::Mul,
        cc::ArithOp::Div => DocArithOp::Div,
    }
}

/// Converts a cp-ast-core expression into the library's, field for field.
#[verifier::external_body]
fn expression_of(e: &cc::Expression) -> DocExpression {
    match e {
        cc::Expression::Lit(v) => DocExpression::Lit(*v),
        cc::Expression::Var(r) => DocExpression::Var(reference_of(r)),
        cc::Expression::BinOp { op, lhs, rhs } => DocExpression::BinOp {
            op: arith_op_of(op), lhs: Box::new(expression_of(lhs)), rhs: Box::new(expression_of(rhs)) },
        cc::Expression::Pow { base, exp } => DocExpression::Pow {
            base: Box::new(expression_of(base)), exp: Box::new(expression_of(exp)) },
        cc::Expression::FnCall { name, args } => DocExpression::FnCall {
            name: name.as_str().to_owned(), args: args.iter().map(expression_of).collect() },
    }
}

/// Converts a cp-ast-core expected type into the library's.
#[verifier::external_body]
fn expected_type_of(t: &cc::ExpectedType) -> DocExpectedType {
    match t {
        cc::ExpectedType::Int => DocExpectedType::Int,
        cc::ExpectedType::Str => DocExpectedType::Str,
        cc::ExpectedType::Char => DocExpectedType::Char,
    }
}

/// Converts a cp-ast-core comparison operator into the library's.
#[verifier::external_body]
fn relation_op_of(o: &cc::RelationOp) -> DocRelationOp {
    match o {
        cc::RelationOp::Lt => DocRelationOp::Lt,
        cc::RelationOp::Le => DocRelationOp::Le,
        cc::RelationOp::Gt => DocRelationOp::Gt,
        cc::RelationOp::Ge => DocRelationOp::Ge,
        cc::RelationOp::Eq => DocRelationOp::Eq,
        cc::RelationOp::Ne => DocRelationOp::Ne,
    }
}

/// Converts a cp-ast-core distinctness unit into the library's.
#[verifier::external_body]
fn distinct_unit_of(u: &cc::DistinctUnit) -> DocDistinctUnit {
    match u {
        cc::DistinctUnit::Element => DocDistinctUnit::Element,
        cc::DistinctUnit::Tuple => DocDistinctUnit::Tuple,
    }
}

/// Converts a cp-ast-core sort order into the library's.
#[verifier::external_body]
fn sort_order_of(o: &cc::SortOrder) -> DocSortOrder {
    match o {
        cc::SortOrder::Ascending => DocSortOrder::Ascending,
        cc::SortOrder::NonDecreasing => DocSortOrder::NonDecreasing,
        cc::SortOrder::Descending => DocSortOrder::Descending,
        cc::SortOrder::NonIncreasing => DocSortOrder::NonIncreasing,
    }
}

/// Converts a cp-ast-core property tag into the library's.
#[verifier::external_body]
fn property_tag_of(t: &cc::PropertyTag) -> DocPropertyTag {
    match t {
        cc::PropertyTag::Simple => DocPropertyTag::Simple,
        cc::PropertyTag::Connected => DocPropertyTag::Connected,
        cc::PropertyTag::Tree => DocPropertyTag::Tree,
        cc::PropertyTag::Permutation => DocPropertyTag::Permutation,
        cc::PropertyTag::Binary => DocPropertyTag::Binary,
        cc::PropertyTag::Odd => DocPropertyTag::Odd,
        cc::PropertyTag::Even => DocPropertyTag::Even,
        cc::PropertyTag::Custom(s) => DocPropertyTag::Custom(s.clone()),
    }
}

/// Converts a cp-ast-core character set into the library's.
#[verifier::external_body]
fn charset_of(c: &cc::CharSetSpec) -> DocCharSetSpec {
    match c {
        cc::CharSetSpec::LowerAlpha => DocCharSetSpec::LowerAlpha,
        cc::CharSetSpec::UpperAlpha => DocCharSetSpec::UpperAlpha,
        cc::CharSetSpec::Alpha => DocCharSetSpec::Alpha,
        cc::CharSetSpec::Digit => DocCharSetSpec::Digit,
        cc::CharSetSpec::AlphaNumeric => DocCharSetSpec::AlphaNumeric,
        cc::CharSetSpec::Custom(chars) => DocCharSetSpec::Custom(chars.clone()),
        cc::CharSetSpec::Range(a, b) => DocCharSetSpec::Range(*a, *b),
    }
}

/// Converts a cp-ast-core rendering hint into the library's.
#[verifier::external_body]
fn render_hint_of(h: &cc::RenderHintKind) -> DocRenderHintKind {
    match h {
        cc::RenderHintKind::Separator(cc::Separator::Space) => DocRenderHintKind::Separator(
            DocSeparator::Space,
        ),
        cc::RenderHintKind::Separator(cc::Separator::None) => DocRenderHintKind::Separator(
            DocSeparator::NoSeparator,
        ),
    }
}

/// Converts a cp-ast-core constraint into the library's, field for field (bounds
/// and relations here; the other kinds go on to `set_constraint_of`).
#[verifier::external_body]
fn constraint_of(c: &cc::Constraint) -> DocConstraint {
    let (r, e) = (reference_of, expression_of);
    match c {
        cc::Constraint::Range { target, lower, upper } => DocConstraint::Range { target: r(target), lower: e(lower), upper: e(upper) },
        cc::Constraint::TypeDecl { target, expected } => DocConstraint::TypeDecl { target: r(target), expected: expected_type_of(expected) },
        cc::Constraint::LengthRelation { target, length } => DocConstraint::LengthRelation { target: r(target), length: e(length) },
        cc::Constraint::Relation { lhs, op, rhs } => DocConstraint::Relation { lhs: e(lhs), op: relation_op_of(op), rhs: e(rhs) },
        other => set_constraint_of(other),
    }
}

/// Converts string lengths, sum bounds, distinctness and properties, field for
/// field; the other kinds go on to `order_constraint_of`.
#[verifier::external_body]
fn set_constraint_of(c: &cc::Constraint) -> DocConstraint {
    let (r, e) = (reference_of, expression_of);
    match c {
        cc::Constraint::StringLength { target, min, max } => DocConstraint::StringLength { target: r(target), min: e(min), max: e(max) },
        cc::Constraint::SumBound { variable, upper } => DocConstraint::SumBound { variable: r(variable), upper: e(upper) },
        cc::Constraint::Distinct { elements, unit } => DocConstraint::Distinct { elements: r(elements), unit: distinct_unit_of(unit) },
        cc::Constraint::Property { target, tag } => DocConstraint::Property { target: r(target), tag: property_tag_of(tag) },
        other => order_constraint_of(other),
    }
}

/// Converts orders, guarantees, character sets and hints, field for field; the
/// other kinds go back to `constraint_of`.
#[verifier::external_body]
fn order_constraint_of(c: &cc::Constraint) -> DocConstraint {
    let r = reference_of;
    match c {
        cc::Constraint::Sorted { elements, order } => DocConstraint::Sorted { elements: r(elements), order: sort_order_of(order) },
        cc::Constraint::Guarantee { description, predicate } => DocConstraint::Guarantee { description: description.clone(), predicate: predicate.as_ref().map(expression_of) },
        cc::Constraint::CharSet { target, charset } => DocConstraint::CharSet { target: r(target), charset: charset_of(charset) },
        cc::Constraint::RenderHint { target, hint } => DocConstraint::RenderHint { target: r(target), hint: render_hint_of(hint) },
        other => constraint_of(other),
    }
}

/// Converts a list of cp-ast-core node ids into their numbers.
#[verifier::external_body]
fn ids_of(v: &Vec<cs::NodeId>) -> Vec<u64> {
    v.iter().map(|i| i.value()).collect()
}

/// Converts a cp-ast-core choice tag into the library's.
#[verifier::external_body]
fn literal_of(l: &cs::Literal) -> DocLiteral {
    match l {
        cs::Literal::IntLit(v) => DocLiteral::IntLit(*v),
        cs::Literal::StrLit(s) => DocLiteral::StrLit(s.clone()),
    }
}

/// Converts a cp-ast-core hole hint into the library's.
#[verifier::external_body]
fn hint_of(h: &cs::NodeKindHint) -> DocNodeKindHint {
    match h {
        cs::NodeKindHint::AnyScalar => DocNodeKindHint::AnyScalar,
        cs::NodeKindHint::AnyArray => DocNodeKindHint::AnyArray,
        cs::NodeKindHint::AnyMatrix => DocNodeKindHint::AnyMatrix,
        cs::NodeKindHint::AnyTuple => DocNodeKindHint::AnyTuple,
        cs::NodeKindHint::AnyRepeat => DocNodeKindHint::AnyRepeat,
        cs::NodeKindHint::AnySection => DocNodeKindHint::AnySection,
        cs::NodeKindHint::AnyChoice => DocNodeKindHint::AnyChoice,
        cs::NodeKindHint::Any => DocNodeKindHint::Any,
    }
}

/// Converts a cp-ast-core node kind into the library's, field for field (values,
/// holes and tuples here; the other kinds go on to `container_kind_of`).
#[verifier::external_body]
fn node_kind_of(k: &cs::NodeKind) -> DocNodeKind {
    match k {
        cs::NodeKind::Scalar { name } => DocNodeKind::Scalar { name: name.as_str().to_owned() },
        cs::NodeKind::Array { name, length } => DocNodeKind::Array { name: name.as_str().to_owned(), length: expression_of(length) },
        cs::NodeKind::Matrix { name, rows, cols } => DocNodeKind::Matrix { name: name.as_str().to_owned(), rows: reference_of(rows), cols: reference_of(cols) },
        cs::NodeKind::Hole { expected_kind } => DocNodeKind::Hole { expected_kind: expected_kind.as_ref().map(hint_of) },
        cs::NodeKind::Tuple { elements } => DocNodeKind::Tuple { elements: ids_of(elements) },
        other => container_kind_of(other),
    }
}

/// Converts repeats, sections, sequences and choices, field for field; the other
/// kinds go back to `node_kind_of`.
#[verifier::external_body]
fn container_kind_of(k: &cs::NodeKind) -> DocNodeKind {
    match k {
        cs::NodeKind::Repeat { count, index_var, body } => DocNodeKind::Repeat { count: expression_of(count), index_var: index_var.as_ref().map(|v| v.as_str().to_owned()), body: ids_of(body) },
        cs::NodeKind::Section { header, body } => DocNodeKind::Section { header: header.map(|h| h.value()), body: ids_of(body) },
        cs::NodeKind::Sequence { children } => DocNodeKind::Sequence { children: ids_of(children) },
        cs::NodeKind::Choice { tag, variants } => DocNodeKind::Choice { tag: reference_of(tag), variants: variants.iter().map(|(l, ids)| (literal_of(l), ids_of(ids))).collect() },
        other => node_kind_of(other),
    }
}

/// Converts a cp-ast-core structure node into the library's.
#[verifier::external_body]
fn structure_node_of(n: &cs::StructureNode) -> DocStructureNode {
    DocStructureNode { id: n.id().value(), kind: node_kind_of(n.kind()) }
}

/// What `cp_ast_json::deserialize_share_state` makes of `state`: nothing where it
/// refuses it, else the structure arena and the constraint arena of the document,
/// as the library's values.
pub uninterp spec fn share_state_document(state: Seq<char>) -> Option<
    (Seq<Option<DocStructureNode>>, Seq<Option<DocConstraint>>),
>;

/// A document decoded from a share state, with that state and the document's
/// structure and constraint arenas as the library's values.
pub struct DecodedEngine {
    engine: AstEngine,
    state: String,
    nodes: Vec<Option<DocStructureNode>>,
    constraints: Vec<Option<DocConstraint>>,
}

impl DecodedEngine {
    /// The share state this document was decoded from.
    pub closed spec fn source(&self) -> Seq<char> {
        self.state@
    }

    /// The document's structure arena.
    pub closed spec fn nodes(&self) -> Seq<Option<DocStructureNode>> {
        self.nodes@
    }

    /// The document's structure arena.
    pub fn node_arena(&self) -> (r: &Vec<Option<DocStructureNode>>)
        ensures
            r@ == self.nodes(),
    {
        &self.nodes
    }

    /// The document's constraint arena.
    pub closed spec fn constraints(&self) -> Seq<Option<DocConstraint>> {
        self.constraints@
    }

    /// The document's constraint arena.
    pub fn constraint_arena(&self) -> (r: &Vec<Option<DocConstraint>>)
        ensures
            r@ == self.constraints(),
    {
        &self.constraints
    }
}

/// A generated sample, with the state and seed it was generated from.
pub struct Sample {
    sample: GeneratedSample,
    state: String,
    seed: u64,
}

impl Sample {
    /// The share state of the document the sample was generated from.
    pub closed spec fn source(&self) -> Seq<char> {
        self.state@
    }

    /// The seed the sample was generated with.
    pub closed spec fn seed(&self) -> u64 {
        self.seed
    }
}

/// Calls `cp_ast_json::deserialize_share_state`, keeps a copy of `state` with the
/// engine, and converts the engine's structure and constraint arenas
/// (`arena_raw`) into the library's values. Claimed: the outcome depends on
/// `state` alone.
#[verifier::external_body]
pub fn decode_share_state(state: &str) -> (r: Result<DecodedEngine, ConversionError>)
    ensures
        r is Ok <==> share_state_document(state@) is Some,
        r matches Ok(e) ==> e.source() == state@ && share_state_document(state@) == Some(
            (e.nodes(), e.constraints()),
        ),
{
    let engine = cp_ast_json::deserialize_share_state(state)?;
    let nodes = engine.structure.arena_raw().iter().map(|s| s.as_ref().map(structure_node_of)).collect();
    let constraints = engine.constraints.arena_raw().iter().map(|s| s.as_ref().map(constraint_of)).collect();
    Ok(DecodedEngine { engine, state: state.to_owned(), nodes, constraints })
}

/// Calls `rand::random::<u64>()`; any value may come back.
#[verifier::external_body]
pub fn random_seed() -> u64 {
    rand::random::<u64>()
}

/// Calls `cp_ast_core::sample::generate` with `seed` and keeps the state and the
/// seed with the sample. Claimed: a failure is one that this state and seed can
/// give. Required: the document passes `generation_is_safe_spec`, which leaves out
/// every document on which the generator recurses without end (a repeat, tuple,
/// sequence, section or choice that lies, directly or not, under itself:
/// generator.rs `generate_body_recursive`) or asks rand for a value from an empty
/// range and so panics (a character range whose first character comes after its
/// last, `random_char_from_spec`; a string length whose larger bound is 0,
/// `resolve_string_length`; a `Simple` graph whose value range has upper bound 0,
/// `generate_property_array`). Left unsaid: the sizes it generates are not
/// bounded, so a document may ask for more memory or time than the machine has.
#[verifier::external_body]
pub fn generate_sample(engine: &DecodedEngine, seed: u64) -> (r: Result<Sample, GenerationError>)
    requires
        generation_is_safe_spec(engine.nodes(), engine.constraints()),
    ensures
        r matches Ok(s) ==> s.source() == engine.source() && s.seed() == seed,
        r is Err ==> generation_can_fail(engine.source(), seed),
{
    let sample = cp_ast_core::sample::generate(&engine.engine, seed)?;
    Ok(Sample { sample, state: engine.state.clone(), seed })
}

/// Calls `cp_ast_core::sample::sample_to_text` on a sample of this document.
/// Claimed: the text is one that the sample's state and seed can give, and it is
/// empty or ends with a line break (the function trims trailing whitespace and
/// then appends one `\n` to non-empty text). Required: the structure is finite
/// (`structure_is_finite`), since output.rs `emit_node` walks down from the root
/// through sequences, sections and choices without remembering where it has been.
#[verifier::external_body]
pub fn render_sample(engine: &DecodedEngine, sample: &Sample) -> (r: String)
    requires
        sample.source() == engine.source(),
        structure_is_finite(engine.nodes()),
    ensures
        sample_text_of(sample.source(), sample.seed(), r@),
        r@.len() == 0 || r@.last() == '\n',
{
    cp_ast_core::sample::sample_to_text(&engine.engine, &sample.sample)
}

} // verus!
