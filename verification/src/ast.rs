//! The problem document as plain values: the input structure (an arena of
//! nodes) and the constraints on it, with numeric ids.
use vstd::prelude::*;

verus! {

/// Expected value type of a declared variable.
#[derive(Debug, Clone, Copy, PartialEq, Eq, Structural)]
pub enum DocExpectedType {
    Int,
    Str,
    Char,
}

/// Comparison between two expressions.
#[derive(Debug, Clone, Copy, PartialEq, Eq, Structural)]
pub enum DocRelationOp {
    Lt,
    Le,
    Gt,
    Ge,
    Eq,
    Ne,
}

/// Arithmetic operator.
#[derive(Debug, Clone, Copy, PartialEq, Eq, Structural)]
pub enum DocArithOp {
    Add,
    Sub,
    Mul,
    Div,
}

/// What must be pairwise distinct.
#[derive(Debug, Clone, Copy, PartialEq, Eq, Structural)]
pub enum DocDistinctUnit {
    Element,
    Tuple,
}

/// Direction of a sortedness constraint.
#[derive(Debug, Clone, Copy, PartialEq, Eq, Structural)]
pub enum DocSortOrder {
    Ascending,
    NonDecreasing,
    Descending,
    NonIncreasing,
}

/// Separator between rendered elements.
#[derive(Debug, Clone, Copy, PartialEq, Eq, Structural)]
pub enum DocSeparator {
    Space,
    /// Elements are written with nothing between them.
    NoSeparator,
}

/// What kind of node a hole expects.
#[derive(Debug, Clone, Copy, PartialEq, Eq, Structural)]
pub enum DocNodeKindHint {
    AnyScalar,
    AnyArray,
    AnyMatrix,
    AnyTuple,
    AnyRepeat,
    AnySection,
    AnyChoice,
    Any,
}

/// A reference to a variable node.
#[derive(Debug)]
pub enum DocReference {
    VariableRef(u64),
    IndexedRef { target: u64, indices: Vec<String> },
    Unresolved(String),
}

/// An integer formula.
#[derive(Debug)]
pub enum DocExpression {
    Lit(i64),
    Var(DocReference),
    BinOp { op: DocArithOp, lhs: Box<DocExpression>, rhs: Box<DocExpression> },
    Pow { base: Box<DocExpression>, exp: Box<DocExpression> },
    FnCall { name: String, args: Vec<DocExpression> },
}

/// A literal tag value.
#[derive(Debug)]
pub enum DocLiteral {
    IntLit(i64),
    StrLit(String),
}

/// A structural property of a graph or array.
#[derive(Debug)]
pub enum DocPropertyTag {
    Simple,
    Connected,
    Tree,
    Permutation,
    Binary,
    Odd,
    Even,
    Custom(String),
}

/// The characters a string may hold.
#[derive(Debug)]
pub enum DocCharSetSpec {
    LowerAlpha,
    UpperAlpha,
    Alpha,
    Digit,
    AlphaNumeric,
    Custom(Vec<char>),
    Range(char, char),
}

/// A rendering hint.
#[derive(Debug)]
pub enum DocRenderHintKind {
    Separator(DocSeparator),
}

/// The kind of a structure node.
#[derive(Debug)]
pub enum DocNodeKind {
    Scalar { name: String },
    Array { name: String, length: DocExpression },
    Matrix { name: String, rows: DocReference, cols: DocReference },
    Tuple { elements: Vec<u64> },
    Repeat { count: DocExpression, index_var: Option<String>, body: Vec<u64> },
    Section { header: Option<u64>, body: Vec<u64> },
    Sequence { children: Vec<u64> },
    Choice { tag: DocReference, variants: Vec<(DocLiteral, Vec<u64>)> },
    Hole { expected_kind: Option<DocNodeKindHint> },
}

/// A constraint on the structure.
#[derive(Debug)]
pub enum DocConstraint {
    Range { target: DocReference, lower: DocExpression, upper: DocExpression },
    TypeDecl { target: DocReference, expected: DocExpectedType },
    LengthRelation { target: DocReference, length: DocExpression },
    Relation { lhs: DocExpression, op: DocRelationOp, rhs: DocExpression },
    Distinct { elements: DocReference, unit: DocDistinctUnit },
    Property { target: DocReference, tag: DocPropertyTag },
    SumBound { variable: DocReference, upper: DocExpression },
    Sorted { elements: DocReference, order: DocSortOrder },
    Guarantee { description: String, predicate: Option<DocExpression> },
    CharSet { target: DocReference, charset: DocCharSetSpec },
    StringLength { target: DocReference, min: DocExpression, max: DocExpression },
    RenderHint { target: DocReference, hint: DocRenderHintKind },
}

/// A node of the structure arena.
#[derive(Debug)]
pub struct DocStructureNode {
    pub id: u64,
    pub kind: DocNodeKind,
}

/// The input structure: its root, the arena (with empty slots) and the next free id.
#[derive(Debug)]
pub struct StructureAst {
    pub root: u64,
    pub arena: Vec<Option<DocStructureNode>>,
    pub next_id: u64,
}

/// The constraints: the arena (with empty slots), the per-node index, the
/// global constraints and the next free id.
#[derive(Debug)]
pub struct ConstraintSet {
    pub arena: Vec<Option<DocConstraint>>,
    pub by_node: Vec<(u64, Vec<u64>)>,
    pub global: Vec<u64>,
    pub next_id: u64,
}

/// A whole problem document.
#[derive(Debug)]
pub struct AstDocument {
    pub structure: StructureAst,
    pub constraints: ConstraintSet,
}

impl StructureAst {
    /// Every occupied slot of the arena holds the node whose id is the slot's index.
    pub open spec fn nodes_at_their_ids(&self) -> bool {
        forall|i: int|
            0 <= i < self.arena@.len() && (#[trigger] self.arena@[i]) is Some
                ==> self.arena@[i].unwrap().id == i
    }
}

} // verus!
