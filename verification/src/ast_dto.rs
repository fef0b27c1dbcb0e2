//! The JSON document schema of a problem (as plain values) and its checked
//! conversion into the document model: schema version, decimal ids, arena
//! slots that match their index, and known names for every enumeration.
use vstd::prelude::*;
use vstd::string::StringExecFns;

use crate::ast::{
    DocArithOp, AstDocument, DocCharSetSpec, DocConstraint, ConstraintSet, DocDistinctUnit, DocExpectedType,
    DocExpression, DocLiteral, DocNodeKind, DocNodeKindHint, DocPropertyTag, DocReference, DocRelationOp,
    DocRenderHintKind, DocSeparator, DocSortOrder, StructureAst, DocStructureNode,
};
use crate::text::{chars_of, copy_range, decimal_u64, opt_view, parse_decimal};

verus! {

broadcast use vstd::string::group_string_axioms;

/// The schema version this reader accepts.
pub const CURRENT_SCHEMA_VERSION: u32 = 1;

/// Why a document could not be read.
#[derive(Debug)]
pub enum AstDtoError {
    /// The text is not JSON of the document schema.
    Json(serde_json::Error),
    /// The document has another schema version.
    UnsupportedVersion(u32),
    /// An id is not a decimal `u64`.
    InvalidId(String),
    /// An arena slot holds an entry whose id is not the slot's index.
    IdIndexMismatch { expected: u64, actual: u64 },
    /// A name that no variant of `enum_name` has.
    UnknownVariant { enum_name: &'static str, value: String },
}

/// A reading failure, with its strings as character sequences.
pub enum DtoFault {
    Json,
    UnsupportedVersion(u32),
    InvalidId(Seq<char>),
    IdIndexMismatch { expected: u64, actual: u64 },
    UnknownVariant { enum_name: Seq<char>, value: Seq<char> },
}

/// The failure that an error reports.
pub open spec fn fault_of_error(e: AstDtoError) -> DtoFault {
    match e {
        AstDtoError::Json(_) => DtoFault::Json,
        AstDtoError::UnsupportedVersion(v) => DtoFault::UnsupportedVersion(v),
        AstDtoError::InvalidId(s) => DtoFault::InvalidId(s@),
        AstDtoError::IdIndexMismatch { expected, actual } => DtoFault::IdIndexMismatch {
            expected,
            actual,
        },
        AstDtoError::UnknownVariant { enum_name, value } => DtoFault::UnknownVariant {
            enum_name: enum_name@,
            value: value@,
        },
    }
}

/// `r` is the outcome of a conversion whose first failure is `fault`: the failure
/// when there is one, and otherwise a value that `good` accepts.
pub open spec fn outcome<T>(
    fault: Option<DtoFault>,
    r: Result<T, AstDtoError>,
    good: spec_fn(T) -> bool,
) -> bool {
    match fault {
        None => r matches Ok(v) && good(v),
        Some(f) => r matches Err(e) && fault_of_error(e) == f,
    }
}

/// The first of two failures.
pub open spec fn first_fault(a: Option<DtoFault>, b: Option<DtoFault>) -> Option<DtoFault> {
    if a is Some {
        a
    } else {
        b
    }
}

/// The failure of reading `s` as an id.
pub open spec fn id_fault(s: Seq<char>) -> Option<DtoFault> {
    if decimal_u64(s) is Some {
        None
    } else {
        Some(DtoFault::InvalidId(s))
    }
}

/// The failure of a name outside the variants of `enum_name`.
pub open spec fn unknown_fault(enum_name: Seq<char>, value: Seq<char>) -> DtoFault {
    DtoFault::UnknownVariant { enum_name, value }
}

/// Reads a decimal id.
pub fn parse_u64(s: &str) -> (r: Result<u64, AstDtoError>)
    ensures
        match decimal_u64(s@) {
            Some(n) => r matches Ok(x) && x == n,
            None => r matches Err(e) && fault_of_error(e) == DtoFault::InvalidId(s@),
        },
{
    let v = chars_of(s);
    assert(v@.subrange(0, v.len() as int) == v@);
    match parse_decimal(&v, 0, v.len()) {
        Some(n) => Ok(n),
        None => Err(AstDtoError::InvalidId(s.to_owned())),
    }
}

/// The error for `value`, which names no variant of `enum_name`.
pub fn unknown<T>(enum_name: &'static str, value: &str) -> (r: Result<T, AstDtoError>)
    ensures
        r matches Err(e) && fault_of_error(e) == unknown_fault(enum_name@, value@),
{
    Err(AstDtoError::UnknownVariant { enum_name, value: value.to_owned() })
}

/// Whether `s` is the text `lit`.
fn str_is(s: &str, lit: &str) -> (b: bool)
    ensures
        b == (s@ == lit@),
{
    let a = s.to_owned();
    let l = String::from_str(lit);
    a == l
}

/// The expected type named `s`.
pub open spec fn expected_type_of(s: Seq<char>) -> Option<DocExpectedType> {
    if s == "Int"@ {
        Some(DocExpectedType::Int)
    } else if s == "Str"@ {
        Some(DocExpectedType::Str)
    } else if s == "Char"@ {
        Some(DocExpectedType::Char)
    } else {
        None
    }
}

/// The relation named `s`.
pub open spec fn relation_op_of(s: Seq<char>) -> Option<DocRelationOp> {
    if s == "Lt"@ {
        Some(DocRelationOp::Lt)
    } else if s == "Le"@ {
        Some(DocRelationOp::Le)
    } else if s == "Gt"@ {
        Some(DocRelationOp::Gt)
    } else if s == "Ge"@ {
        Some(DocRelationOp::Ge)
    } else if s == "Eq"@ {
        Some(DocRelationOp::Eq)
    } else if s == "Ne"@ {
        Some(DocRelationOp::Ne)
    } else {
        None
    }
}

/// The arithmetic operator named `s`.
pub open spec fn arith_op_of(s: Seq<char>) -> Option<DocArithOp> {
    if s == "Add"@ {
        Some(DocArithOp::Add)
    } else if s == "Sub"@ {
        Some(DocArithOp::Sub)
    } else if s == "Mul"@ {
        Some(DocArithOp::Mul)
    } else if s == "Div"@ {
        Some(DocArithOp::Div)
    } else {
        None
    }
}

/// The distinctness unit named `s`.
pub open spec fn distinct_unit_of(s: Seq<char>) -> Option<DocDistinctUnit> {
    if s == "Element"@ {
        Some(DocDistinctUnit::Element)
    } else if s == "Tuple"@ {
        Some(DocDistinctUnit::Tuple)
    } else {
        None
    }
}

/// The sort order named `s`.
pub open spec fn sort_order_of(s: Seq<char>) -> Option<DocSortOrder> {
    if s == "Ascending"@ {
        Some(DocSortOrder::Ascending)
    } else if s == "NonDecreasing"@ {
        Some(DocSortOrder::NonDecreasing)
    } else if s == "Descending"@ {
        Some(DocSortOrder::Descending)
    } else if s == "NonIncreasing"@ {
        Some(DocSortOrder::NonIncreasing)
    } else {
        None
    }
}

/// The separator named `s`.
pub open spec fn separator_of(s: Seq<char>) -> Option<DocSeparator> {
    if s == "Space"@ {
        Some(DocSeparator::Space)
    } else if s == "None"@ {
        Some(DocSeparator::NoSeparator)
    } else {
        None
    }
}

/// The node kind hint named `s`.
pub open spec fn hint_of(s: Seq<char>) -> Option<DocNodeKindHint> {
    if s == "AnyScalar"@ {
        Some(DocNodeKindHint::AnyScalar)
    } else if s == "AnyArray"@ {
        Some(DocNodeKindHint::AnyArray)
    } else if s == "AnyMatrix"@ {
        Some(DocNodeKindHint::AnyMatrix)
    } else if s == "AnyTuple"@ {
        Some(DocNodeKindHint::AnyTuple)
    } else if s == "AnyRepeat"@ {
        Some(DocNodeKindHint::AnyRepeat)
    } else if s == "AnySection"@ {
        Some(DocNodeKindHint::AnySection)
    } else if s == "AnyChoice"@ {
        Some(DocNodeKindHint::AnyChoice)
    } else if s == "Any"@ {
        Some(DocNodeKindHint::Any)
    } else {
        None
    }
}

/// The failure of reading `s` as a name of `enum_name` through `names`.
pub open spec fn name_fault<T>(names: Option<T>, enum_name: Seq<char>, s: Seq<char>) -> Option<
    DtoFault,
> {
    if names is Some {
        None
    } else {
        Some(unknown_fault(enum_name, s))
    }
}

/// `r` reads `s` through `names`, failing for names of no variant of `enum_name`.
pub open spec fn named<T>(
    names: Option<T>,
    enum_name: Seq<char>,
    s: Seq<char>,
    r: Result<T, AstDtoError>,
) -> bool {
    outcome(name_fault(names, enum_name, s), r, |v: T| names == Some(v))
}

/// The expected type named `s`.
pub fn str_to_expected_type(s: &str) -> (r: Result<DocExpectedType, AstDtoError>)
    ensures
        named(expected_type_of(s@), "ExpectedType"@, s@, r),
{
    if str_is(s, "Int") {
        Ok(DocExpectedType::Int)
    } else if str_is(s, "Str") {
        Ok(DocExpectedType::Str)
    } else if str_is(s, "Char") {
        Ok(DocExpectedType::Char)
    } else {
        unknown("ExpectedType", s)
    }
}

/// The relation named `s`.
pub fn str_to_relation_op(s: &str) -> (r: Result<DocRelationOp, AstDtoError>)
    ensures
        named(relation_op_of(s@), "RelationOp"@, s@, r),
{
    if str_is(s, "Lt") {
        Ok(DocRelationOp::Lt)
    } else if str_is(s, "Le") {
        Ok(DocRelationOp::Le)
    } else if str_is(s, "Gt") {
        Ok(DocRelationOp::Gt)
    } else if str_is(s, "Ge") {
        Ok(DocRelationOp::Ge)
    } else if str_is(s, "Eq") {
        Ok(DocRelationOp::Eq)
    } else if str_is(s, "Ne") {
        Ok(DocRelationOp::Ne)
    } else {
        unknown("RelationOp", s)
    }
}

/// The arithmetic operator named `s`.
pub fn str_to_arith_op(s: &str) -> (r: Result<DocArithOp, AstDtoError>)
    ensures
        named(arith_op_of(s@), "ArithOp"@, s@, r),
{
    if str_is(s, "Add") {
        Ok(DocArithOp::Add)
    } else if str_is(s, "Sub") {
        Ok(DocArithOp::Sub)
    } else if str_is(s, "Mul") {
        Ok(DocArithOp::Mul)
    } else if str_is(s, "Div") {
        Ok(DocArithOp::Div)
    } else {
        unknown("ArithOp", s)
    }
}

/// The distinctness unit named `s`.
pub fn str_to_distinct_unit(s: &str) -> (r: Result<DocDistinctUnit, AstDtoError>)
    ensures
        named(distinct_unit_of(s@), "DistinctUnit"@, s@, r),
{
    if str_is(s, "Element") {
        Ok(DocDistinctUnit::Element)
    } else if str_is(s, "Tuple") {
        Ok(DocDistinctUnit::Tuple)
    } else {
        unknown("DistinctUnit", s)
    }
}

/// The sort order named `s`.
pub fn str_to_sort_order(s: &str) -> (r: Result<DocSortOrder, AstDtoError>)
    ensures
        named(sort_order_of(s@), "SortOrder"@, s@, r),
{
    if str_is(s, "Ascending") {
        Ok(DocSortOrder::Ascending)
    } else if str_is(s, "NonDecreasing") {
        Ok(DocSortOrder::NonDecreasing)
    } else if str_is(s, "Descending") {
        Ok(DocSortOrder::Descending)
    } else if str_is(s, "NonIncreasing") {
        Ok(DocSortOrder::NonIncreasing)
    } else {
        unknown("SortOrder", s)
    }
}

/// The separator named `s`.
pub fn str_to_separator(s: &str) -> (r: Result<DocSeparator, AstDtoError>)
    ensures
        named(separator_of(s@), "Separator"@, s@, r),
{
    if str_is(s, "Space") {
        Ok(DocSeparator::Space)
    } else if str_is(s, "None") {
        Ok(DocSeparator::NoSeparator)
    } else {
        unknown("Separator", s)
    }
}

/// The node kind hint named `s`.
pub fn str_to_hint(s: &str) -> (r: Result<DocNodeKindHint, AstDtoError>)
    ensures
        named(hint_of(s@), "NodeKindHint"@, s@, r),
{
    if str_is(s, "AnyScalar") {
        Ok(DocNodeKindHint::AnyScalar)
    } else if str_is(s, "AnyArray") {
        Ok(DocNodeKindHint::AnyArray)
    } else if str_is(s, "AnyMatrix") {
        Ok(DocNodeKindHint::AnyMatrix)
    } else if str_is(s, "AnyTuple") {
        Ok(DocNodeKindHint::AnyTuple)
    } else if str_is(s, "AnyRepeat") {
        Ok(DocNodeKindHint::AnyRepeat)
    } else if str_is(s, "AnySection") {
        Ok(DocNodeKindHint::AnySection)
    } else if str_is(s, "AnyChoice") {
        Ok(DocNodeKindHint::AnyChoice)
    } else if str_is(s, "Any") {
        Ok(DocNodeKindHint::Any)
    } else {
        unknown("NodeKindHint", s)
    }
}


/// A reference as the document writes it.
#[derive(Debug)]
pub enum ReferenceDto {
    VariableRef { node_id: String },
    IndexedRef { target: String, indices: Vec<String> },
    Unresolved { name: String },
}

/// An expression as the document writes it.
#[derive(Debug)]
pub enum ExpressionDto {
    Lit { value: i64 },
    Var { reference: ReferenceDto },
    BinOp { op: String, lhs: Box<ExpressionDto>, rhs: Box<ExpressionDto> },
    Pow { base: Box<ExpressionDto>, exp: Box<ExpressionDto> },
    FnCall { name: String, args: Vec<ExpressionDto> },
}

/// A literal as the document writes it.
#[derive(Debug)]
pub enum LiteralDto {
    IntLit { value: i64 },
    StrLit { value: String },
}

/// A property tag as the document writes it.
#[derive(Debug)]
pub enum PropertyTagDto {
    Simple,
    Connected,
    Tree,
    Permutation,
    Binary,
    Odd,
    Even,
    Custom { value: String },
}

/// A character set as the document writes it.
#[derive(Debug)]
pub enum CharSetSpecDto {
    LowerAlpha,
    UpperAlpha,
    Alpha,
    Digit,
    AlphaNumeric,
    Custom { chars: Vec<char> },
    Range { from: char, to: char },
}

/// A rendering hint as the document writes it.
#[derive(Debug)]
pub enum RenderHintKindDto {
    Separator { value: String },
}

/// The views of a vector of strings.
pub open spec fn string_views(v: Seq<String>) -> Seq<Seq<char>> {
    v.map_values(|s: String| s@)
}

/// The first id among `ids` that is not a decimal `u64`.
pub open spec fn ids_fault(ids: Seq<Seq<char>>) -> Option<DtoFault>
    decreases ids.len(),
{
    if ids.len() == 0 {
        None
    } else {
        first_fault(id_fault(ids[0]), ids_fault(ids.drop_first()))
    }
}

/// `out` holds the values of the ids `ids`.
pub open spec fn ids_match(ids: Seq<Seq<char>>, out: Seq<u64>) -> bool {
    &&& ids.len() == out.len()
    &&& forall|i: int| 0 <= i < ids.len() ==> decimal_u64(#[trigger] ids[i]) == Some(out[i])
}

pub proof fn lemma_ids_fault_none(ids: Seq<Seq<char>>)
    requires
        forall|i: int| 0 <= i < ids.len() ==> (#[trigger] decimal_u64(ids[i])) is Some,
    ensures
        ids_fault(ids) is None,
    decreases ids.len(),
{
    if ids.len() > 0 {
        assert(decimal_u64(ids[0]) is Some);
        assert forall|i: int| 0 <= i < ids.drop_first().len() implies (#[trigger] decimal_u64(
            ids.drop_first()[i],
        )) is Some by {
            assert(ids.drop_first()[i] == ids[i + 1]);
        }
        lemma_ids_fault_none(ids.drop_first());
    }
}

/// Reads a list of node ids.
pub fn parse_node_ids(ids: &Vec<String>) -> (r: Result<Vec<u64>, AstDtoError>)
    ensures
        outcome(ids_fault(string_views(ids@)), r, |v: Vec<u64>| ids_match(string_views(ids@), v@)),
{
    let ghost s = string_views(ids@);
    let mut out: Vec<u64> = Vec::new();
    let mut i: usize = 0;
    assert(s.skip(0) == s);
    while i < ids.len()
        invariant
            i <= ids.len(),
            s == string_views(ids@),
            s.len() == ids.len(),
            ids_fault(s) == ids_fault(s.skip(i as int)),
            out@.len() == i,
            forall|j: int| 0 <= j < i ==> decimal_u64(#[trigger] s[j]) == Some(out@[j]),
        decreases ids.len() - i,
    {
        assert(s.skip(i as int)[0] == ids@[i as int]@);
        assert(s.skip(i as int).drop_first() == s.skip(i + 1));
        match parse_u64(ids[i].as_str()) {
            Ok(n) => {
                out.push(n);
            },
            Err(e) => {
                return Err(e);
            },
        }
        i = i + 1;
    }
    proof {
        lemma_ids_fault_none(s);
    }
    Ok(out)
}

/// The failure of reading a reference.
pub open spec fn ref_fault(d: ReferenceDto) -> Option<DtoFault> {
    match d {
        ReferenceDto::VariableRef { node_id } => id_fault(node_id@),
        ReferenceDto::IndexedRef { target, .. } => id_fault(target@),
        ReferenceDto::Unresolved { .. } => None,
    }
}

/// `r` is the reference that `d` writes.
pub open spec fn ref_matches(d: ReferenceDto, r: DocReference) -> bool {
    match d {
        ReferenceDto::VariableRef { node_id } => r matches DocReference::VariableRef(n) && decimal_u64(
            node_id@,
        ) == Some(n),
        ReferenceDto::IndexedRef { target, indices } => r matches DocReference::IndexedRef {
            target: t,
            indices: ix,
        } && decimal_u64(target@) == Some(t) && string_views(ix@) == string_views(indices@),
        ReferenceDto::Unresolved { name } => r matches DocReference::Unresolved(n) && n@ == name@,
    }
}

fn clone_strings(v: &Vec<String>) -> (r: Vec<String>)
    ensures
        string_views(r@) == string_views(v@),
{
    let mut r: Vec<String> = Vec::new();
    for i in 0..v.len()
        invariant
            r@.len() == i,
            forall|j: int| 0 <= j < i ==> (#[trigger] r@[j])@ == v@[j]@,
    {
        r.push(v[i].clone());
    }
    assert(string_views(r@) =~= string_views(v@));
    r
}

/// Reads a reference.
pub fn dto_to_ref(dto: &ReferenceDto) -> (r: Result<DocReference, AstDtoError>)
    ensures
        outcome(ref_fault(*dto), r, |x: DocReference| ref_matches(*dto, x)),
{
    match dto {
        ReferenceDto::VariableRef { node_id } => match parse_u64(node_id.as_str()) {
            Ok(n) => Ok(DocReference::VariableRef(n)),
            Err(e) => Err(e),
        },
        ReferenceDto::IndexedRef { target, indices } => match parse_u64(target.as_str()) {
            Ok(t) => Ok(DocReference::IndexedRef { target: t, indices: clone_strings(indices) }),
            Err(e) => Err(e),
        },
        ReferenceDto::Unresolved { name } => Ok(DocReference::Unresolved(name.clone())),
    }
}

/// The first failure in reading an expression.
pub open spec fn expr_fault(d: ExpressionDto) -> Option<DtoFault>
    decreases d,
{
    match d {
        ExpressionDto::Lit { .. } => None,
        ExpressionDto::Var { reference } => ref_fault(reference),
        ExpressionDto::BinOp { op, lhs, rhs } => first_fault(
            name_fault(arith_op_of(op@), "ArithOp"@, op@),
            first_fault(expr_fault(*lhs), expr_fault(*rhs)),
        ),
        ExpressionDto::Pow { base, exp } => first_fault(expr_fault(*base), expr_fault(*exp)),
        ExpressionDto::FnCall { args, .. } => exprs_fault(args@),
    }
}

/// The first failure in reading a list of expressions.
pub open spec fn exprs_fault(s: Seq<ExpressionDto>) -> Option<DtoFault>
    decreases s,
{
    if s.len() == 0 {
        None
    } else {
        first_fault(expr_fault(s[0]), exprs_fault(s.subrange(1, s.len() as int)))
    }
}

/// `e` is the expression that `d` writes.
pub open spec fn expr_matches(d: ExpressionDto, e: DocExpression) -> bool
    decreases d,
{
    match d {
        ExpressionDto::Lit { value } => e matches DocExpression::Lit(v) && v == value,
        ExpressionDto::Var { reference } => e matches DocExpression::Var(r) && ref_matches(
            reference,
            r,
        ),
        ExpressionDto::BinOp { op, lhs, rhs } => e matches DocExpression::BinOp {
            op: o,
            lhs: l,
            rhs: r,
        } && arith_op_of(op@) == Some(o) && expr_matches(*lhs, *l) && expr_matches(*rhs, *r),
        ExpressionDto::Pow { base, exp } => e matches DocExpression::Pow { base: b, exp: x }
            && expr_matches(*base, *b) && expr_matches(*exp, *x),
        ExpressionDto::FnCall { name, args } => e matches DocExpression::FnCall { name: n, args: a }
            && n@ == name@ && exprs_match(args@, a@),
    }
}

/// `es` are the expressions that `ds` write.
pub open spec fn exprs_match(ds: Seq<ExpressionDto>, es: Seq<DocExpression>) -> bool
    decreases ds,
{
    if ds.len() == 0 {
        es.len() == 0
    } else {
        es.len() > 0 && expr_matches(ds[0], es[0]) && exprs_match(
            ds.subrange(1, ds.len() as int),
            es.subrange(1, es.len() as int),
        )
    }
}


pub proof fn lemma_exprs_match(ds: Seq<ExpressionDto>, es: Seq<DocExpression>)
    requires
        ds.len() == es.len(),
        forall|i: int| 0 <= i < ds.len() ==> expr_matches(#[trigger] ds[i], es[i]),
    ensures
        exprs_match(ds, es),
    decreases ds.len(),
{
    if ds.len() > 0 {
        let (d1, e1) = (ds.subrange(1, ds.len() as int), es.subrange(1, es.len() as int));
        assert forall|i: int| 0 <= i < d1.len() implies expr_matches(#[trigger] d1[i], e1[i]) by {
            assert(d1[i] == ds[i + 1] && e1[i] == es[i + 1]);
        }
        lemma_exprs_match(d1, e1);
    }
}

/// Reads a list of expressions in order, stopping at the first failure.
pub fn dto_to_exprs(args: &Vec<ExpressionDto>) -> (r: Result<Vec<DocExpression>, AstDtoError>)
    ensures
        outcome(exprs_fault(args@), r, |v: Vec<DocExpression>| exprs_match(args@, v@)),
    decreases args@, 0nat,
{
    let mut out: Vec<DocExpression> = Vec::new();
    let mut i: usize = 0;
    assert(args@.subrange(0, args@.len() as int) == args@);
    while i < args.len()
        invariant
            i <= args.len(),
            exprs_fault(args@) == exprs_fault(args@.subrange(i as int, args@.len() as int)),
            out@.len() == i,
            forall|j: int| 0 <= j < i ==> expr_matches(#[trigger] args@[j], out@[j]),
        decreases args.len() - i,
    {
        let ghost rest = args@.subrange(i as int, args@.len() as int);
        assert(rest[0] == args@[i as int]);
        assert(rest.subrange(1, rest.len() as int) == args@.subrange(i + 1, args@.len() as int));
        match dto_to_expr(&args[i]) {
            Ok(e) => {
                out.push(e);
            },
            Err(e) => {
                return Err(e);
            },
        }
        i = i + 1;
    }
    proof {
        lemma_exprs_match(args@, out@);
    }
    Ok(out)
}

/// Reads an expression; its parts are read in the order they are written.
pub fn dto_to_expr(dto: &ExpressionDto) -> (r: Result<DocExpression, AstDtoError>)
    ensures
        outcome(expr_fault(*dto), r, |x: DocExpression| expr_matches(*dto, x)),
    decreases *dto, 1nat,
{
    match dto {
        ExpressionDto::Lit { value } => Ok(DocExpression::Lit(*value)),
        ExpressionDto::Var { reference } => match dto_to_ref(reference) {
            Ok(r) => Ok(DocExpression::Var(r)),
            Err(e) => Err(e),
        },
        ExpressionDto::BinOp { op, lhs, rhs } => {
            let o = match str_to_arith_op(op.as_str()) {
                Ok(o) => o,
                Err(e) => {
                    return Err(e);
                },
            };
            let l = match dto_to_expr(lhs) {
                Ok(l) => l,
                Err(e) => {
                    return Err(e);
                },
            };
            let r = match dto_to_expr(rhs) {
                Ok(r) => r,
                Err(e) => {
                    return Err(e);
                },
            };
            Ok(DocExpression::BinOp { op: o, lhs: Box::new(l), rhs: Box::new(r) })
        },
        ExpressionDto::Pow { base, exp } => {
            let b = match dto_to_expr(base) {
                Ok(b) => b,
                Err(e) => {
                    return Err(e);
                },
            };
            let x = match dto_to_expr(exp) {
                Ok(x) => x,
                Err(e) => {
                    return Err(e);
                },
            };
            Ok(DocExpression::Pow { base: Box::new(b), exp: Box::new(x) })
        },
        ExpressionDto::FnCall { name, args } => match dto_to_exprs(args) {
            Ok(a) => Ok(DocExpression::FnCall { name: name.clone(), args: a }),
            Err(e) => Err(e),
        },
    }
}


/// A variant of a choice node as the document writes it.
#[derive(Debug)]
pub struct ChoiceVariantDto {
    pub tag_value: LiteralDto,
    pub body: Vec<String>,
}

/// A node kind as the document writes it.
#[derive(Debug)]
pub enum NodeKindDto {
    Scalar { name: String },
    Array { name: String, length: ExpressionDto },
    Matrix { name: String, rows: ReferenceDto, cols: ReferenceDto },
    Tuple { elements: Vec<String> },
    Repeat { count: ExpressionDto, index_var: Option<String>, body: Vec<String> },
    Section { header: Option<String>, body: Vec<String> },
    Sequence { children: Vec<String> },
    Choice { tag: ReferenceDto, variants: Vec<ChoiceVariantDto> },
    Hole { expected_kind: Option<String> },
}

/// `l` is the literal that `d` writes.
pub open spec fn literal_matches(d: LiteralDto, l: DocLiteral) -> bool {
    match d {
        LiteralDto::IntLit { value } => l matches DocLiteral::IntLit(v) && v == value,
        LiteralDto::StrLit { value } => l matches DocLiteral::StrLit(v) && v@ == value@,
    }
}

/// Reads a literal.
pub fn dto_to_literal(dto: &LiteralDto) -> (l: DocLiteral)
    ensures
        literal_matches(*dto, l),
{
    match dto {
        LiteralDto::IntLit { value } => DocLiteral::IntLit(*value),
        LiteralDto::StrLit { value } => DocLiteral::StrLit(value.clone()),
    }
}

/// `t` is the property tag that `d` writes.
pub open spec fn property_tag_matches(d: PropertyTagDto, t: DocPropertyTag) -> bool {
    match d {
        PropertyTagDto::Simple => t is Simple,
        PropertyTagDto::Connected => t is Connected,
        PropertyTagDto::Tree => t is Tree,
        PropertyTagDto::Permutation => t is Permutation,
        PropertyTagDto::Binary => t is Binary,
        PropertyTagDto::Odd => t is Odd,
        PropertyTagDto::Even => t is Even,
        PropertyTagDto::Custom { value } => t matches DocPropertyTag::Custom(v) && v@ == value@,
    }
}

/// Reads a property tag.
pub fn dto_to_property_tag(dto: &PropertyTagDto) -> (t: DocPropertyTag)
    ensures
        property_tag_matches(*dto, t),
{
    match dto {
        PropertyTagDto::Simple => DocPropertyTag::Simple,
        PropertyTagDto::Connected => DocPropertyTag::Connected,
        PropertyTagDto::Tree => DocPropertyTag::Tree,
        PropertyTagDto::Permutation => DocPropertyTag::Permutation,
        PropertyTagDto::Binary => DocPropertyTag::Binary,
        PropertyTagDto::Odd => DocPropertyTag::Odd,
        PropertyTagDto::Even => DocPropertyTag::Even,
        PropertyTagDto::Custom { value } => DocPropertyTag::Custom(value.clone()),
    }
}

/// `c` is the character set that `d` writes.
pub open spec fn charset_matches(d: CharSetSpecDto, c: DocCharSetSpec) -> bool {
    match d {
        CharSetSpecDto::LowerAlpha => c is LowerAlpha,
        CharSetSpecDto::UpperAlpha => c is UpperAlpha,
        CharSetSpecDto::Alpha => c is Alpha,
        CharSetSpecDto::Digit => c is Digit,
        CharSetSpecDto::AlphaNumeric => c is AlphaNumeric,
        CharSetSpecDto::Custom { chars } => c matches DocCharSetSpec::Custom(v) && v@ == chars@,
        CharSetSpecDto::Range { from, to } => c matches DocCharSetSpec::Range(a, b) && a == from && b
            == to,
    }
}

/// Reads a character set.
pub fn dto_to_charset(dto: &CharSetSpecDto) -> (c: DocCharSetSpec)
    ensures
        charset_matches(*dto, c),
{
    match dto {
        CharSetSpecDto::LowerAlpha => DocCharSetSpec::LowerAlpha,
        CharSetSpecDto::UpperAlpha => DocCharSetSpec::UpperAlpha,
        CharSetSpecDto::Alpha => DocCharSetSpec::Alpha,
        CharSetSpecDto::Digit => DocCharSetSpec::Digit,
        CharSetSpecDto::AlphaNumeric => DocCharSetSpec::AlphaNumeric,
        CharSetSpecDto::Custom { chars } => {
            assert(chars@.subrange(0, chars.len() as int) == chars@);
            DocCharSetSpec::Custom(copy_range(chars, 0, chars.len()))
        },
        CharSetSpecDto::Range { from, to } => DocCharSetSpec::Range(*from, *to),
    }
}

/// The failure of reading a rendering hint.
pub open spec fn render_hint_fault(d: RenderHintKindDto) -> Option<DtoFault> {
    match d {
        RenderHintKindDto::Separator { value } => name_fault(
            separator_of(value@),
            "Separator"@,
            value@,
        ),
    }
}

/// `h` is the rendering hint that `d` writes.
pub open spec fn render_hint_matches(d: RenderHintKindDto, h: DocRenderHintKind) -> bool {
    match d {
        RenderHintKindDto::Separator { value } => h matches DocRenderHintKind::Separator(s)
            && separator_of(value@) == Some(s),
    }
}

/// Reads a rendering hint.
pub fn dto_to_render_hint(dto: &RenderHintKindDto) -> (r: Result<DocRenderHintKind, AstDtoError>)
    ensures
        outcome(render_hint_fault(*dto), r, |h: DocRenderHintKind| render_hint_matches(*dto, h)),
{
    match dto {
        RenderHintKindDto::Separator { value } => match str_to_separator(value.as_str()) {
            Ok(s) => Ok(DocRenderHintKind::Separator(s)),
            Err(e) => Err(e),
        },
    }
}

/// The failure of reading an optional id.
pub open spec fn opt_id_fault(o: Option<String>) -> Option<DtoFault> {
    match o {
        Some(s) => id_fault(s@),
        None => None,
    }
}

/// The failure of reading an optional node kind hint.
pub open spec fn opt_hint_fault(o: Option<String>) -> Option<DtoFault> {
    match o {
        Some(s) => name_fault(hint_of(s@), "NodeKindHint"@, s@),
        None => None,
    }
}

/// `n` is the optional id that `o` writes.
pub open spec fn opt_id_matches(o: Option<String>, n: Option<u64>) -> bool {
    match (o, n) {
        (Some(s), Some(v)) => decimal_u64(s@) == Some(v),
        (None, None) => true,
        _ => false,
    }
}

/// `h` is the optional hint that `o` names.
pub open spec fn opt_hint_matches(o: Option<String>, h: Option<DocNodeKindHint>) -> bool {
    match (o, h) {
        (Some(s), Some(k)) => hint_of(s@) == Some(k),
        (None, None) => true,
        _ => false,
    }
}

/// The first failure in reading the bodies of choice variants.
pub open spec fn variants_fault(vs: Seq<ChoiceVariantDto>) -> Option<DtoFault>
    decreases vs.len(),
{
    if vs.len() == 0 {
        None
    } else {
        first_fault(ids_fault(string_views(vs[0].body@)), variants_fault(vs.drop_first()))
    }
}

/// `out` are the choice variants that `vs` write.
pub open spec fn variants_match(vs: Seq<ChoiceVariantDto>, out: Seq<(DocLiteral, Vec<u64>)>) -> bool {
    &&& vs.len() == out.len()
    &&& forall|i: int|
        0 <= i < vs.len() ==> literal_matches(#[trigger] vs[i].tag_value, out[i].0) && ids_match(
            string_views(vs[i].body@),
            out[i].1@,
        )
}

/// The first failure in reading a node kind.
pub open spec fn node_kind_fault(d: NodeKindDto) -> Option<DtoFault> {
    match d {
        NodeKindDto::Scalar { .. } => None,
        NodeKindDto::Array { length, .. } => expr_fault(length),
        NodeKindDto::Matrix { rows, cols, .. } => first_fault(ref_fault(rows), ref_fault(cols)),
        NodeKindDto::Tuple { elements } => ids_fault(string_views(elements@)),
        NodeKindDto::Repeat { count, body, .. } => first_fault(
            expr_fault(count),
            ids_fault(string_views(body@)),
        ),
        NodeKindDto::Section { header, body } => first_fault(
            opt_id_fault(header),
            ids_fault(string_views(body@)),
        ),
        NodeKindDto::Sequence { children } => ids_fault(string_views(children@)),
        NodeKindDto::Choice { tag, variants } => first_fault(
            variants_fault(variants@),
            ref_fault(tag),
        ),
        NodeKindDto::Hole { expected_kind } => opt_hint_fault(expected_kind),
    }
}

/// `k` is the node kind that `d` writes.
pub open spec fn node_kind_matches(d: NodeKindDto, k: DocNodeKind) -> bool {
    match d {
        NodeKindDto::Scalar { name } => k matches DocNodeKind::Scalar { name: n } && n@ == name@,
        NodeKindDto::Array { name, length } => k matches DocNodeKind::Array { name: n, length: l }
            && n@ == name@ && expr_matches(length, l),
        NodeKindDto::Matrix { name, rows, cols } => k matches DocNodeKind::Matrix {
            name: n,
            rows: r,
            cols: c,
        } && n@ == name@ && ref_matches(rows, r) && ref_matches(cols, c),
        NodeKindDto::Tuple { elements } => k matches DocNodeKind::Tuple { elements: e } && ids_match(
            string_views(elements@),
            e@,
        ),
        NodeKindDto::Repeat { count, index_var, body } => k matches DocNodeKind::Repeat {
            count: c,
            index_var: v,
            body: b,
        } && expr_matches(count, c) && opt_view(v) == opt_view(index_var) && ids_match(
            string_views(body@),
            b@,
        ),
        NodeKindDto::Section { header, body } => k matches DocNodeKind::Section {
            header: h,
            body: b,
        } && opt_id_matches(header, h) && ids_match(string_views(body@), b@),
        NodeKindDto::Sequence { children } => k matches DocNodeKind::Sequence { children: c }
            && ids_match(string_views(children@), c@),
        NodeKindDto::Choice { tag, variants } => k matches DocNodeKind::Choice {
            tag: t,
            variants: v,
        } && ref_matches(tag, t) && variants_match(variants@, v@),
        NodeKindDto::Hole { expected_kind } => k matches DocNodeKind::Hole { expected_kind: e }
            && opt_hint_matches(expected_kind, e),
    }
}

/// Reads the variants of a choice node in order.
pub fn dto_to_variants(variants: &Vec<ChoiceVariantDto>) -> (r: Result<
    Vec<(DocLiteral, Vec<u64>)>,
    AstDtoError,
>)
    ensures
        outcome(
            variants_fault(variants@),
            r,
            |v: Vec<(DocLiteral, Vec<u64>)>| variants_match(variants@, v@),
        ),
{
    let mut out: Vec<(DocLiteral, Vec<u64>)> = Vec::new();
    let mut i: usize = 0;
    assert(variants@.skip(0) == variants@);
    while i < variants.len()
        invariant
            i <= variants.len(),
            variants_fault(variants@) == variants_fault(variants@.skip(i as int)),
            out@.len() == i,
            forall|j: int|
                0 <= j < i ==> literal_matches(#[trigger] variants@[j].tag_value, out@[j].0)
                    && ids_match(string_views(variants@[j].body@), out@[j].1@),
        decreases variants.len() - i,
    {
        assert(variants@.skip(i as int)[0] == variants@[i as int]);
        assert(variants@.skip(i as int).drop_first() == variants@.skip(i + 1));
        let v = &variants[i];
        let lit = dto_to_literal(&v.tag_value);
        match parse_node_ids(&v.body) {
            Ok(ids) => {
                out.push((lit, ids));
            },
            Err(e) => {
                return Err(e);
            },
        }
        i = i + 1;
    }
    Ok(out)
}

/// Reads a node kind.
pub fn dto_to_node_kind(dto: &NodeKindDto) -> (r: Result<DocNodeKind, AstDtoError>)
    ensures
        outcome(node_kind_fault(*dto), r, |k: DocNodeKind| node_kind_matches(*dto, k)),
{
    match dto {
        NodeKindDto::Scalar { name } => Ok(DocNodeKind::Scalar { name: name.clone() }),
        NodeKindDto::Array { name, length } => match dto_to_expr(length) {
            Ok(l) => Ok(DocNodeKind::Array { name: name.clone(), length: l }),
            Err(e) => Err(e),
        },
        NodeKindDto::Matrix { name, rows, cols } => {
            let r = match dto_to_ref(rows) {
                Ok(r) => r,
                Err(e) => {
                    return Err(e);
                },
            };
            match dto_to_ref(cols) {
                Ok(c) => Ok(DocNodeKind::Matrix { name: name.clone(), rows: r, cols: c }),
                Err(e) => Err(e),
            }
        },
        NodeKindDto::Tuple { elements } => match parse_node_ids(elements) {
            Ok(e) => Ok(DocNodeKind::Tuple { elements: e }),
            Err(e) => Err(e),
        },
        NodeKindDto::Repeat { count, index_var, body } => {
            let c = match dto_to_expr(count) {
                Ok(c) => c,
                Err(e) => {
                    return Err(e);
                },
            };
            let v = match index_var {
                Some(s) => Some(s.clone()),
                None => None,
            };
            match parse_node_ids(body) {
                Ok(b) => Ok(DocNodeKind::Repeat { count: c, index_var: v, body: b }),
                Err(e) => Err(e),
            }
        },
        NodeKindDto::Section { header, body } => {
            let h = match header {
                Some(s) => match parse_u64(s.as_str()) {
                    Ok(n) => Some(n),
                    Err(e) => {
                        return Err(e);
                    },
                },
                None => None,
            };
            match parse_node_ids(body) {
                Ok(b) => Ok(DocNodeKind::Section { header: h, body: b }),
                Err(e) => Err(e),
            }
        },
        NodeKindDto::Sequence { children } => match parse_node_ids(children) {
            Ok(c) => Ok(DocNodeKind::Sequence { children: c }),
            Err(e) => Err(e),
        },
        NodeKindDto::Choice { tag, variants } => {
            let v = match dto_to_variants(variants) {
                Ok(v) => v,
                Err(e) => {
                    return Err(e);
                },
            };
            match dto_to_ref(tag) {
                Ok(t) => Ok(DocNodeKind::Choice { tag: t, variants: v }),
                Err(e) => Err(e),
            }
        },
        NodeKindDto::Hole { expected_kind } => {
            let e = match expected_kind {
                Some(s) => match str_to_hint(s.as_str()) {
                    Ok(h) => Some(h),
                    Err(e) => {
                        return Err(e);
                    },
                },
                None => None,
            };
            Ok(DocNodeKind::Hole { expected_kind: e })
        },
    }
}


/// A constraint as the document writes it.
#[derive(Debug)]
pub enum ConstraintDto {
    Range { target: ReferenceDto, lower: ExpressionDto, upper: ExpressionDto },
    TypeDecl { target: ReferenceDto, expected: String },
    LengthRelation { target: ReferenceDto, length: ExpressionDto },
    Relation { lhs: ExpressionDto, op: String, rhs: ExpressionDto },
    Distinct { elements: ReferenceDto, unit: String },
    Property { target: ReferenceDto, tag: PropertyTagDto },
    SumBound { variable: ReferenceDto, upper: ExpressionDto },
    Sorted { elements: ReferenceDto, order: String },
    Guarantee { description: String, predicate: Option<ExpressionDto> },
    CharSet { target: ReferenceDto, charset: CharSetSpecDto },
    StringLength { target: ReferenceDto, min: ExpressionDto, max: ExpressionDto },
    RenderHint { target: ReferenceDto, hint: RenderHintKindDto },
}

/// The failure of reading an optional expression.
pub open spec fn opt_expr_fault(o: Option<ExpressionDto>) -> Option<DtoFault> {
    match o {
        Some(e) => expr_fault(e),
        None => None,
    }
}

/// `e` is the optional expression that `o` writes.
pub open spec fn opt_expr_matches(o: Option<ExpressionDto>, e: Option<DocExpression>) -> bool {
    match (o, e) {
        (Some(d), Some(x)) => expr_matches(d, x),
        (None, None) => true,
        _ => false,
    }
}

/// The first failure in reading a constraint, its fields taken in order.
pub open spec fn constraint_fault(d: ConstraintDto) -> Option<DtoFault> {
    match d {
        ConstraintDto::Range { target, lower, upper } => first_fault(
            ref_fault(target),
            first_fault(expr_fault(lower), expr_fault(upper)),
        ),
        ConstraintDto::TypeDecl { target, expected } => first_fault(
            ref_fault(target),
            name_fault(expected_type_of(expected@), "ExpectedType"@, expected@),
        ),
        ConstraintDto::LengthRelation { target, length } => first_fault(
            ref_fault(target),
            expr_fault(length),
        ),
        ConstraintDto::Relation { lhs, op, rhs } => first_fault(
            expr_fault(lhs),
            first_fault(name_fault(relation_op_of(op@), "RelationOp"@, op@), expr_fault(rhs)),
        ),
        ConstraintDto::Distinct { elements, unit } => first_fault(
            ref_fault(elements),
            name_fault(distinct_unit_of(unit@), "DistinctUnit"@, unit@),
        ),
        ConstraintDto::Property { target, .. } => ref_fault(target),
        ConstraintDto::SumBound { variable, upper } => first_fault(
            ref_fault(variable),
            expr_fault(upper),
        ),
        ConstraintDto::Sorted { elements, order } => first_fault(
            ref_fault(elements),
            name_fault(sort_order_of(order@), "SortOrder"@, order@),
        ),
        ConstraintDto::Guarantee { predicate, .. } => opt_expr_fault(predicate),
        ConstraintDto::CharSet { target, .. } => ref_fault(target),
        ConstraintDto::StringLength { target, min, max } => first_fault(
            ref_fault(target),
            first_fault(expr_fault(min), expr_fault(max)),
        ),
        ConstraintDto::RenderHint { target, hint } => first_fault(
            ref_fault(target),
            render_hint_fault(hint),
        ),
    }
}

/// `c` is the constraint that `d` writes.
pub open spec fn constraint_matches(d: ConstraintDto, c: DocConstraint) -> bool {
    match d {
        ConstraintDto::Range { target, lower, upper } => c matches DocConstraint::Range {
            target: t,
            lower: l,
            upper: u,
        } && ref_matches(target, t) && expr_matches(lower, l) && expr_matches(upper, u),
        ConstraintDto::TypeDecl { target, expected } => c matches DocConstraint::TypeDecl {
            target: t,
            expected: x,
        } && ref_matches(target, t) && expected_type_of(expected@) == Some(x),
        ConstraintDto::LengthRelation { target, length } => c matches DocConstraint::LengthRelation {
            target: t,
            length: l,
        } && ref_matches(target, t) && expr_matches(length, l),
        ConstraintDto::Relation { lhs, op, rhs } => c matches DocConstraint::Relation {
            lhs: l,
            op: o,
            rhs: r,
        } && expr_matches(lhs, l) && relation_op_of(op@) == Some(o) && expr_matches(rhs, r),
        ConstraintDto::Distinct { elements, unit } => c matches DocConstraint::Distinct {
            elements: e,
            unit: u,
        } && ref_matches(elements, e) && distinct_unit_of(unit@) == Some(u),
        ConstraintDto::Property { target, tag } => c matches DocConstraint::Property {
            target: t,
            tag: g,
        } && ref_matches(target, t) && property_tag_matches(tag, g),
        ConstraintDto::SumBound { variable, upper } => c matches DocConstraint::SumBound {
            variable: v,
            upper: u,
        } && ref_matches(variable, v) && expr_matches(upper, u),
        ConstraintDto::Sorted { elements, order } => c matches DocConstraint::Sorted {
            elements: e,
            order: o,
        } && ref_matches(elements, e) && sort_order_of(order@) == Some(o),
        ConstraintDto::Guarantee { description, predicate } => c matches DocConstraint::Guarantee {
            description: s,
            predicate: p,
        } && s@ == description@ && opt_expr_matches(predicate, p),
        ConstraintDto::CharSet { target, charset } => c matches DocConstraint::CharSet {
            target: t,
            charset: x,
        } && ref_matches(target, t) && charset_matches(charset, x),
        ConstraintDto::StringLength { target, min, max } => c matches DocConstraint::StringLength {
            target: t,
            min: a,
            max: b,
        } && ref_matches(target, t) && expr_matches(min, a) && expr_matches(max, b),
        ConstraintDto::RenderHint { target, hint } => c matches DocConstraint::RenderHint {
            target: t,
            hint: h,
        } && ref_matches(target, t) && render_hint_matches(hint, h),
    }
}

/// Reads a constraint; its fields are read in the order they are written.
pub fn dto_to_constraint(dto: &ConstraintDto) -> (r: Result<DocConstraint, AstDtoError>)
    ensures
        outcome(constraint_fault(*dto), r, |c: DocConstraint| constraint_matches(*dto, c)),
{
    match dto {
        ConstraintDto::Range { target, lower, upper } => {
            let t = match dto_to_ref(target) {
                Ok(t) => t,
                Err(e) => {
                    return Err(e);
                },
            };
            let l = match dto_to_expr(lower) {
                Ok(l) => l,
                Err(e) => {
                    return Err(e);
                },
            };
            match dto_to_expr(upper) {
                Ok(u) => Ok(DocConstraint::Range { target: t, lower: l, upper: u }),
                Err(e) => Err(e),
            }
        },
        ConstraintDto::TypeDecl { target, expected } => {
            let t = match dto_to_ref(target) {
                Ok(t) => t,
                Err(e) => {
                    return Err(e);
                },
            };
            match str_to_expected_type(expected.as_str()) {
                Ok(x) => Ok(DocConstraint::TypeDecl { target: t, expected: x }),
                Err(e) => Err(e),
            }
        },
        ConstraintDto::LengthRelation { target, length } => {
            let t = match dto_to_ref(target) {
                Ok(t) => t,
                Err(e) => {
                    return Err(e);
                },
            };
            match dto_to_expr(length) {
                Ok(l) => Ok(DocConstraint::LengthRelation { target: t, length: l }),
                Err(e) => Err(e),
            }
        },
        ConstraintDto::Relation { lhs, op, rhs } => {
            let l = match dto_to_expr(lhs) {
                Ok(l) => l,
                Err(e) => {
                    return Err(e);
                },
            };
            let o = match str_to_relation_op(op.as_str()) {
                Ok(o) => o,
                Err(e) => {
                    return Err(e);
                },
            };
            match dto_to_expr(rhs) {
                Ok(r) => Ok(DocConstraint::Relation { lhs: l, op: o, rhs: r }),
                Err(e) => Err(e),
            }
        },
        ConstraintDto::Distinct { elements, unit } => {
            let el = match dto_to_ref(elements) {
                Ok(x) => x,
                Err(e) => {
                    return Err(e);
                },
            };
            match str_to_distinct_unit(unit.as_str()) {
                Ok(u) => Ok(DocConstraint::Distinct { elements: el, unit: u }),
                Err(e) => Err(e),
            }
        },
        ConstraintDto::Property { target, tag } => match dto_to_ref(target) {
            Ok(t) => Ok(DocConstraint::Property { target: t, tag: dto_to_property_tag(tag) }),
            Err(e) => Err(e),
        },
        ConstraintDto::SumBound { variable, upper } => {
            let v = match dto_to_ref(variable) {
                Ok(v) => v,
                Err(e) => {
                    return Err(e);
                },
            };
            match dto_to_expr(upper) {
                Ok(u) => Ok(DocConstraint::SumBound { variable: v, upper: u }),
                Err(e) => Err(e),
            }
        },
        ConstraintDto::Sorted { elements, order } => {
            let el = match dto_to_ref(elements) {
                Ok(x) => x,
                Err(e) => {
                    return Err(e);
                },
            };
            match str_to_sort_order(order.as_str()) {
                Ok(o) => Ok(DocConstraint::Sorted { elements: el, order: o }),
                Err(e) => Err(e),
            }
        },
        ConstraintDto::Guarantee { description, predicate } => {
            let p = match predicate {
                Some(x) => match dto_to_expr(x) {
                    Ok(e) => Some(e),
                    Err(e) => {
                        return Err(e);
                    },
                },
                None => None,
            };
            Ok(DocConstraint::Guarantee { description: description.clone(), predicate: p })
        },
        ConstraintDto::CharSet { target, charset } => match dto_to_ref(target) {
            Ok(t) => Ok(DocConstraint::CharSet { target: t, charset: dto_to_charset(charset) }),
            Err(e) => Err(e),
        },
        ConstraintDto::StringLength { target, min, max } => {
            let t = match dto_to_ref(target) {
                Ok(t) => t,
                Err(e) => {
                    return Err(e);
                },
            };
            let a = match dto_to_expr(min) {
                Ok(a) => a,
                Err(e) => {
                    return Err(e);
                },
            };
            match dto_to_expr(max) {
                Ok(b) => Ok(DocConstraint::StringLength { target: t, min: a, max: b }),
                Err(e) => Err(e),
            }
        },
        ConstraintDto::RenderHint { target, hint } => {
            let t = match dto_to_ref(target) {
                Ok(t) => t,
                Err(e) => {
                    return Err(e);
                },
            };
            match dto_to_render_hint(hint) {
                Ok(h) => Ok(DocConstraint::RenderHint { target: t, hint: h }),
                Err(e) => Err(e),
            }
        },
    }
}


/// A structure node as the document writes it.
#[derive(Debug)]
pub struct StructureNodeDto {
    pub id: String,
    pub kind: NodeKindDto,
}

/// The input structure as the document writes it.
#[derive(Debug)]
pub struct StructureAstDto {
    pub root: String,
    pub next_id: String,
    pub arena: Vec<Option<StructureNodeDto>>,
}

/// The failure of reading the structure slot at index `i`.
pub open spec fn node_slot_fault(slot: Option<StructureNodeDto>, i: int) -> Option<DtoFault> {
    match slot {
        None => None,
        Some(n) => match decimal_u64(n.id@) {
            None => Some(DtoFault::InvalidId(n.id@)),
            Some(id) => if id != i {
                Some(DtoFault::IdIndexMismatch { expected: i as u64, actual: id })
            } else {
                node_kind_fault(n.kind)
            },
        },
    }
}

/// The first failure among the structure slots from index `from` on.
pub open spec fn node_slots_fault(a: Seq<Option<StructureNodeDto>>, from: int) -> Option<DtoFault>
    decreases a.len() - from,
{
    if from < 0 || from >= a.len() {
        None
    } else {
        first_fault(node_slot_fault(a[from], from), node_slots_fault(a, from + 1))
    }
}

/// `m` is the structure slot at index `i` that `d` writes.
pub open spec fn node_slot_matches(d: Option<StructureNodeDto>, m: Option<DocStructureNode>, i: int) -> bool {
    match (d, m) {
        (None, None) => true,
        (Some(n), Some(x)) => x.id == i && node_kind_matches(n.kind, x.kind),
        _ => false,
    }
}

/// The first failure in reading the structure: root id, next id, then the slots.
pub open spec fn structure_fault(d: StructureAstDto) -> Option<DtoFault> {
    first_fault(
        id_fault(d.root@),
        first_fault(id_fault(d.next_id@), node_slots_fault(d.arena@, 0)),
    )
}

/// `s` is the structure that `d` writes.
pub open spec fn structure_matches(d: StructureAstDto, s: StructureAst) -> bool {
    &&& decimal_u64(d.root@) == Some(s.root)
    &&& decimal_u64(d.next_id@) == Some(s.next_id)
    &&& s.arena@.len() == d.arena@.len()
    &&& forall|i: int|
        0 <= i < d.arena@.len() ==> node_slot_matches(#[trigger] d.arena@[i], s.arena@[i], i)
}

/// Reads the structure arena slot at index `i`.
pub fn dto_to_node_slot(slot: &Option<StructureNodeDto>, i: usize) -> (r: Result<
    Option<DocStructureNode>,
    AstDtoError,
>)
    ensures
        outcome(
            node_slot_fault(*slot, i as int),
            r,
            |m: Option<DocStructureNode>| node_slot_matches(*slot, m, i as int),
        ),
{
    match slot {
        None => Ok(None),
        Some(node) => {
            let id = match parse_u64(node.id.as_str()) {
                Ok(n) => n,
                Err(e) => {
                    return Err(e);
                },
            };
            let expected = i as u64;
            if id != expected {
                return Err(AstDtoError::IdIndexMismatch { expected, actual: id });
            }
            match dto_to_node_kind(&node.kind) {
                Ok(k) => Ok(Some(DocStructureNode { id, kind: k })),
                Err(e) => Err(e),
            }
        },
    }
}

/// Reads the input structure.
pub fn dto_to_structure(dto: &StructureAstDto) -> (r: Result<StructureAst, AstDtoError>)
    ensures
        outcome(structure_fault(*dto), r, |s: StructureAst| structure_matches(*dto, s)),
{
    let root = match parse_u64(dto.root.as_str()) {
        Ok(n) => n,
        Err(e) => {
            return Err(e);
        },
    };
    let next_id = match parse_u64(dto.next_id.as_str()) {
        Ok(n) => n,
        Err(e) => {
            return Err(e);
        },
    };
    let mut arena: Vec<Option<DocStructureNode>> = Vec::new();
    let mut i: usize = 0;
    while i < dto.arena.len()
        invariant
            i <= dto.arena.len(),
            decimal_u64(dto.root@) == Some(root),
            decimal_u64(dto.next_id@) == Some(next_id),
            node_slots_fault(dto.arena@, 0) == node_slots_fault(dto.arena@, i as int),
            arena@.len() == i,
            forall|j: int|
                0 <= j < i ==> node_slot_matches(#[trigger] dto.arena@[j], arena@[j], j),
        decreases dto.arena.len() - i,
    {
        match dto_to_node_slot(&dto.arena[i], i) {
            Ok(m) => {
                arena.push(m);
            },
            Err(e) => {
                return Err(e);
            },
        }
        i = i + 1;
    }
    Ok(StructureAst { root, arena, next_id })
}

/// A constraint arena entry as the document writes it.
#[derive(Debug)]
pub struct ConstraintEntryDto {
    pub id: String,
    pub constraint: ConstraintDto,
}

/// A per-node constraint index entry as the document writes it.
#[derive(Debug)]
pub struct ByNodeEntryDto {
    pub node_id: String,
    pub constraints: Vec<String>,
}

/// The constraints as the document writes them.
#[derive(Debug)]
pub struct ConstraintSetDto {
    pub next_id: String,
    pub arena: Vec<Option<ConstraintEntryDto>>,
    pub by_node: Vec<ByNodeEntryDto>,
    pub global: Vec<String>,
}

/// The failure of reading the constraint slot at index `i`.
pub open spec fn constraint_slot_fault(slot: Option<ConstraintEntryDto>, i: int) -> Option<
    DtoFault,
> {
    match slot {
        None => None,
        Some(n) => match decimal_u64(n.id@) {
            None => Some(DtoFault::InvalidId(n.id@)),
            Some(id) => if id != i {
                Some(DtoFault::IdIndexMismatch { expected: i as u64, actual: id })
            } else {
                constraint_fault(n.constraint)
            },
        },
    }
}

/// The first failure among the constraint slots from index `from` on.
pub open spec fn constraint_slots_fault(a: Seq<Option<ConstraintEntryDto>>, from: int) -> Option<
    DtoFault,
>
    decreases a.len() - from,
{
    if from < 0 || from >= a.len() {
        None
    } else {
        first_fault(constraint_slot_fault(a[from], from), constraint_slots_fault(a, from + 1))
    }
}

/// `m` is the constraint slot that `d` writes.
pub open spec fn constraint_slot_matches(d: Option<ConstraintEntryDto>, m: Option<DocConstraint>) -> bool {
    match (d, m) {
        (None, None) => true,
        (Some(n), Some(c)) => constraint_matches(n.constraint, c),
        _ => false,
    }
}

/// The first failure in the per-node index.
pub open spec fn by_node_fault(s: Seq<ByNodeEntryDto>) -> Option<DtoFault>
    decreases s.len(),
{
    if s.len() == 0 {
        None
    } else {
        first_fault(
            first_fault(id_fault(s[0].node_id@), ids_fault(string_views(s[0].constraints@))),
            by_node_fault(s.drop_first()),
        )
    }
}

/// `out` is the per-node index that `s` writes.
pub open spec fn by_node_matches(s: Seq<ByNodeEntryDto>, out: Seq<(u64, Vec<u64>)>) -> bool {
    &&& s.len() == out.len()
    &&& forall|i: int|
        0 <= i < s.len() ==> decimal_u64((#[trigger] s[i]).node_id@) == Some(out[i].0) && ids_match(
            string_views(s[i].constraints@),
            out[i].1@,
        )
}

/// The first failure in reading the constraints: next id, slots, per-node index, globals.
pub open spec fn constraint_set_fault(d: ConstraintSetDto) -> Option<DtoFault> {
    first_fault(
        id_fault(d.next_id@),
        first_fault(
            constraint_slots_fault(d.arena@, 0),
            first_fault(by_node_fault(d.by_node@), ids_fault(string_views(d.global@))),
        ),
    )
}

/// `c` is the constraint set that `d` writes.
pub open spec fn constraint_set_matches(d: ConstraintSetDto, c: ConstraintSet) -> bool {
    &&& decimal_u64(d.next_id@) == Some(c.next_id)
    &&& c.arena@.len() == d.arena@.len()
    &&& forall|i: int|
        0 <= i < d.arena@.len() ==> constraint_slot_matches(#[trigger] d.arena@[i], c.arena@[i])
    &&& by_node_matches(d.by_node@, c.by_node@)
    &&& ids_match(string_views(d.global@), c.global@)
}

/// Reads the per-node constraint index.
pub fn dto_to_by_node(entries: &Vec<ByNodeEntryDto>) -> (r: Result<Vec<(u64, Vec<u64>)>, AstDtoError>)
    ensures
        outcome(
            by_node_fault(entries@),
            r,
            |v: Vec<(u64, Vec<u64>)>| by_node_matches(entries@, v@),
        ),
{
    let mut out: Vec<(u64, Vec<u64>)> = Vec::new();
    let mut i: usize = 0;
    assert(entries@.skip(0) == entries@);
    while i < entries.len()
        invariant
            i <= entries.len(),
            by_node_fault(entries@) == by_node_fault(entries@.skip(i as int)),
            out@.len() == i,
            forall|j: int|
                0 <= j < i ==> decimal_u64((#[trigger] entries@[j]).node_id@) == Some(out@[j].0)
                    && ids_match(string_views(entries@[j].constraints@), out@[j].1@),
        decreases entries.len() - i,
    {
        assert(entries@.skip(i as int)[0] == entries@[i as int]);
        assert(entries@.skip(i as int).drop_first() == entries@.skip(i + 1));
        let entry = &entries[i];
        let node = match parse_u64(entry.node_id.as_str()) {
            Ok(n) => n,
            Err(e) => {
                return Err(e);
            },
        };
        match parse_node_ids(&entry.constraints) {
            Ok(ids) => {
                out.push((node, ids));
            },
            Err(e) => {
                return Err(e);
            },
        }
        i = i + 1;
    }
    Ok(out)
}

/// Reads the constraint arena slot at index `i`.
pub fn dto_to_constraint_slot(slot: &Option<ConstraintEntryDto>, i: usize) -> (r: Result<
    Option<DocConstraint>,
    AstDtoError,
>)
    ensures
        outcome(
            constraint_slot_fault(*slot, i as int),
            r,
            |m: Option<DocConstraint>| constraint_slot_matches(*slot, m),
        ),
{
    match slot {
        None => Ok(None),
        Some(entry) => {
            let id = match parse_u64(entry.id.as_str()) {
                Ok(n) => n,
                Err(e) => {
                    return Err(e);
                },
            };
            let expected = i as u64;
            if id != expected {
                return Err(AstDtoError::IdIndexMismatch { expected, actual: id });
            }
            match dto_to_constraint(&entry.constraint) {
                Ok(c) => Ok(Some(c)),
                Err(e) => Err(e),
            }
        },
    }
}

/// Reads the constraints.
pub fn dto_to_constraint_set(dto: &ConstraintSetDto) -> (r: Result<ConstraintSet, AstDtoError>)
    ensures
        outcome(constraint_set_fault(*dto), r, |c: ConstraintSet| constraint_set_matches(*dto, c)),
{
    let next_id = match parse_u64(dto.next_id.as_str()) {
        Ok(n) => n,
        Err(e) => {
            return Err(e);
        },
    };
    let mut arena: Vec<Option<DocConstraint>> = Vec::new();
    let mut i: usize = 0;
    while i < dto.arena.len()
        invariant
            i <= dto.arena.len(),
            decimal_u64(dto.next_id@) == Some(next_id),
            constraint_slots_fault(dto.arena@, 0) == constraint_slots_fault(dto.arena@, i as int),
            arena@.len() == i,
            forall|j: int|
                0 <= j < i ==> constraint_slot_matches(#[trigger] dto.arena@[j], arena@[j]),
        decreases dto.arena.len() - i,
    {
        match dto_to_constraint_slot(&dto.arena[i], i) {
            Ok(m) => {
                arena.push(m);
            },
            Err(e) => {
                return Err(e);
            },
        }
        i = i + 1;
    }
    let by_node = match dto_to_by_node(&dto.by_node) {
        Ok(b) => b,
        Err(e) => {
            return Err(e);
        },
    };
    let global = match parse_node_ids(&dto.global) {
        Ok(g) => g,
        Err(e) => {
            return Err(e);
        },
    };
    Ok(ConstraintSet { arena, by_node, global, next_id })
}

/// A whole document as the JSON schema writes it.
#[derive(Debug)]
pub struct AstDocumentDto {
    pub structure: StructureAstDto,
    pub constraints: ConstraintSetDto,
}

/// The versioned top level of the JSON schema.
#[derive(Debug)]
pub struct AstDocumentEnvelope {
    pub schema_version: u32,
    pub document: AstDocumentDto,
}

/// The first failure in reading an envelope: the schema version, then the
/// structure, then the constraints.
pub open spec fn envelope_fault(e: AstDocumentEnvelope) -> Option<DtoFault> {
    if e.schema_version != CURRENT_SCHEMA_VERSION {
        Some(DtoFault::UnsupportedVersion(e.schema_version))
    } else {
        first_fault(
            structure_fault(e.document.structure),
            constraint_set_fault(e.document.constraints),
        )
    }
}

/// `d` is the document that `e` writes.
pub open spec fn document_matches(e: AstDocumentEnvelope, d: AstDocument) -> bool {
    &&& structure_matches(e.document.structure, d.structure)
    &&& constraint_set_matches(e.document.constraints, d.constraints)
}

/// Checks a parsed envelope and turns it into a document: the schema version must
/// be the current one, every id decimal, every arena entry at the slot its id
/// names, and every name a known variant; the first failure is reported.
pub fn envelope_to_engine(envelope: &AstDocumentEnvelope) -> (r: Result<AstDocument, AstDtoError>)
    ensures
        outcome(envelope_fault(*envelope), r, |d: AstDocument| document_matches(*envelope, d)),
        r matches Ok(d) ==> d.structure.nodes_at_their_ids(),
{
    if envelope.schema_version != CURRENT_SCHEMA_VERSION {
        return Err(AstDtoError::UnsupportedVersion(envelope.schema_version));
    }
    let structure = match dto_to_structure(&envelope.document.structure) {
        Ok(s) => s,
        Err(e) => {
            return Err(e);
        },
    };
    match dto_to_constraint_set(&envelope.document.constraints) {
        Ok(c) => {
            let doc = AstDocument { structure, constraints: c };
            proof {
                law_read_nodes_sit_at_their_id(*envelope, doc);
            }
            Ok(doc)
        },
        Err(e) => Err(e),
    }
}

/// In every document read successfully, each occupied structure slot holds the
/// node whose id is the slot's index.
pub proof fn law_read_nodes_sit_at_their_id(envelope: AstDocumentEnvelope, doc: AstDocument)
    requires
        document_matches(envelope, doc),
    ensures
        doc.structure.nodes_at_their_ids(),
{
    assert forall|i: int|
        0 <= i < doc.structure.arena@.len() && (#[trigger] doc.structure.arena@[i]) is Some
            implies doc.structure.arena@[i].unwrap().id == i by {
        assert(node_slot_matches(
            envelope.document.structure.arena@[i],
            doc.structure.arena@[i],
            i,
        ));
    }
}

/// Only documents of the current schema version are read.
pub proof fn law_only_current_schema_is_read(envelope: AstDocumentEnvelope)
    requires
        envelope_fault(envelope) is None,
    ensures
        envelope.schema_version == CURRENT_SCHEMA_VERSION,
{
}

/// Each relation name of the schema is read as the relation of that name, and no
/// two names are read as the same relation.
pub proof fn law_relation_names(s: Seq<char>, t: Seq<char>)
    ensures
        relation_op_of("Lt"@) == Some(DocRelationOp::Lt),
        relation_op_of("Le"@) == Some(DocRelationOp::Le),
        relation_op_of("Gt"@) == Some(DocRelationOp::Gt),
        relation_op_of("Ge"@) == Some(DocRelationOp::Ge),
        relation_op_of("Eq"@) == Some(DocRelationOp::Eq),
        relation_op_of("Ne"@) == Some(DocRelationOp::Ne),
        relation_op_of(s) is Some && relation_op_of(s) == relation_op_of(t) ==> s == t,
{
    reveal_strlit("Lt");
    reveal_strlit("Le");
    reveal_strlit("Gt");
    reveal_strlit("Ge");
    reveal_strlit("Eq");
    reveal_strlit("Ne");
    assert("Lt"@[0] == 'L' && "Lt"@[1] == 't');
    assert("Le"@[0] == 'L' && "Le"@[1] == 'e');
    assert("Gt"@[0] == 'G' && "Gt"@[1] == 't');
    assert("Ge"@[0] == 'G' && "Ge"@[1] == 'e');
    assert("Eq"@[0] == 'E' && "Eq"@[1] == 'q');
    assert("Ne"@[0] == 'N' && "Ne"@[1] == 'e');
}

/// Each expected type name of the schema is read as the expected type of that name, and no
/// two names are read as the same one.
pub proof fn law_expected_type_names(s: Seq<char>, t: Seq<char>)
    ensures
        expected_type_of("Int"@) == Some(DocExpectedType::Int),
        expected_type_of("Str"@) == Some(DocExpectedType::Str),
        expected_type_of("Char"@) == Some(DocExpectedType::Char),
        expected_type_of(s) is Some && expected_type_of(s) == expected_type_of(t) ==> s == t,
{
    reveal_strlit("Int");
    reveal_strlit("Str");
    reveal_strlit("Char");
    assert("Int"@.len() == 3 && "Int"@[0] == 'I' && "Int"@[1] == 'n' && "Int"@[2] == 't');
    assert("Str"@.len() == 3 && "Str"@[0] == 'S' && "Str"@[1] == 't' && "Str"@[2] == 'r');
    assert("Char"@.len() == 4 && "Char"@[0] == 'C' && "Char"@[1] == 'h' && "Char"@[2] == 'a' && "Char"@[3] == 'r');
}

/// Each arithmetic operator name of the schema is read as the arithmetic operator of that name, and no
/// two names are read as the same one.
pub proof fn law_arith_op_names(s: Seq<char>, t: Seq<char>)
    ensures
        arith_op_of("Add"@) == Some(DocArithOp::Add),
        arith_op_of("Sub"@) == Some(DocArithOp::Sub),
        arith_op_of("Mul"@) == Some(DocArithOp::Mul),
        arith_op_of("Div"@) == Some(DocArithOp::Div),
        arith_op_of(s) is Some && arith_op_of(s) == arith_op_of(t) ==> s == t,
{
    reveal_strlit("Add");
    reveal_strlit("Sub");
    reveal_strlit("Mul");
    reveal_strlit("Div");
    assert("Add"@.len() == 3 && "Add"@[0] == 'A' && "Add"@[1] == 'd' && "Add"@[2] == 'd');
    assert("Sub"@.len() == 3 && "Sub"@[0] == 'S' && "Sub"@[1] == 'u' && "Sub"@[2] == 'b');
    assert("Mul"@.len() == 3 && "Mul"@[0] == 'M' && "Mul"@[1] == 'u' && "Mul"@[2] == 'l');
    assert("Div"@.len() == 3 && "Div"@[0] == 'D' && "Div"@[1] == 'i' && "Div"@[2] == 'v');
}

/// Each distinctness unit name of the schema is read as the distinctness unit of that name, and no
/// two names are read as the same one.
pub proof fn law_distinct_unit_names(s: Seq<char>, t: Seq<char>)
    ensures
        distinct_unit_of("Element"@) == Some(DocDistinctUnit::Element),
        distinct_unit_of("Tuple"@) == Some(DocDistinctUnit::Tuple),
        distinct_unit_of(s) is Some && distinct_unit_of(s) == distinct_unit_of(t) ==> s == t,
{
    reveal_strlit("Element");
    reveal_strlit("Tuple");
    assert("Element"@.len() == 7 && "Element"@[0] == 'E' && "Element"@[1] == 'l' && "Element"@[2] == 'e' && "Element"@[3] == 'm' && "Element"@[4] == 'e' && "Element"@[5] == 'n' && "Element"@[6] == 't');
    assert("Tuple"@.len() == 5 && "Tuple"@[0] == 'T' && "Tuple"@[1] == 'u' && "Tuple"@[2] == 'p' && "Tuple"@[3] == 'l' && "Tuple"@[4] == 'e');
}

/// Each sort order name of the schema is read as the sort order of that name, and no
/// two names are read as the same one.
pub proof fn law_sort_order_names(s: Seq<char>, t: Seq<char>)
    ensures
        sort_order_of("Ascending"@) == Some(DocSortOrder::Ascending),
        sort_order_of("NonDecreasing"@) == Some(DocSortOrder::NonDecreasing),
        sort_order_of("Descending"@) == Some(DocSortOrder::Descending),
        sort_order_of("NonIncreasing"@) == Some(DocSortOrder::NonIncreasing),
        sort_order_of(s) is Some && sort_order_of(s) == sort_order_of(t) ==> s == t,
{
    reveal_strlit("Ascending");
    reveal_strlit("NonDecreasing");
    reveal_strlit("Descending");
    reveal_strlit("NonIncreasing");
    assert("Ascending"@.len() == 9 && "Ascending"@[0] == 'A' && "Ascending"@[1] == 's' && "Ascending"@[2] == 'c' && "Ascending"@[3] == 'e' && "Ascending"@[4] == 'n' && "Ascending"@[5] == 'd' && "Ascending"@[6] == 'i' && "Ascending"@[7] == 'n' && "Ascending"@[8] == 'g');
    assert("NonDecreasing"@.len() == 13 && "NonDecreasing"@[0] == 'N' && "NonDecreasing"@[1] == 'o' && "NonDecreasing"@[2] == 'n' && "NonDecreasing"@[3] == 'D' && "NonDecreasing"@[4] == 'e' && "NonDecreasing"@[5] == 'c' && "NonDecreasing"@[6] == 'r' && "NonDecreasing"@[7] == 'e' && "NonDecreasing"@[8] == 'a' && "NonDecreasing"@[9] == 's' && "NonDecreasing"@[10] == 'i' && "NonDecreasing"@[11] == 'n' && "NonDecreasing"@[12] == 'g');
    assert("Descending"@.len() == 10 && "Descending"@[0] == 'D' && "Descending"@[1] == 'e' && "Descending"@[2] == 's' && "Descending"@[3] == 'c' && "Descending"@[4] == 'e' && "Descending"@[5] == 'n' && "Descending"@[6] == 'd' && "Descending"@[7] == 'i' && "Descending"@[8] == 'n' && "Descending"@[9] == 'g');
    assert("NonIncreasing"@.len() == 13 && "NonIncreasing"@[0] == 'N' && "NonIncreasing"@[1] == 'o' && "NonIncreasing"@[2] == 'n' && "NonIncreasing"@[3] == 'I' && "NonIncreasing"@[4] == 'n' && "NonIncreasing"@[5] == 'c' && "NonIncreasing"@[6] == 'r' && "NonIncreasing"@[7] == 'e' && "NonIncreasing"@[8] == 'a' && "NonIncreasing"@[9] == 's' && "NonIncreasing"@[10] == 'i' && "NonIncreasing"@[11] == 'n' && "NonIncreasing"@[12] == 'g');
}

/// Each separator name of the schema is read as the separator of that name, and no
/// two names are read as the same one.
pub proof fn law_separator_names(s: Seq<char>, t: Seq<char>)
    ensures
        separator_of("Space"@) == Some(DocSeparator::Space),
        separator_of("None"@) == Some(DocSeparator::NoSeparator),
        separator_of(s) is Some && separator_of(s) == separator_of(t) ==> s == t,
{
    reveal_strlit("Space");
    reveal_strlit("None");
    assert("Space"@.len() == 5 && "Space"@[0] == 'S' && "Space"@[1] == 'p' && "Space"@[2] == 'a' && "Space"@[3] == 'c' && "Space"@[4] == 'e');
    assert("None"@.len() == 4 && "None"@[0] == 'N' && "None"@[1] == 'o' && "None"@[2] == 'n' && "None"@[3] == 'e');
}

/// Each hole hint name of the schema is read as the hole hint of that name, and no
/// two names are read as the same one.
pub proof fn law_hint_names(s: Seq<char>, t: Seq<char>)
    ensures
        hint_of("AnyScalar"@) == Some(DocNodeKindHint::AnyScalar),
        hint_of("AnyArray"@) == Some(DocNodeKindHint::AnyArray),
        hint_of("AnyMatrix"@) == Some(DocNodeKindHint::AnyMatrix),
        hint_of("AnyTuple"@) == Some(DocNodeKindHint::AnyTuple),
        hint_of("AnyRepeat"@) == Some(DocNodeKindHint::AnyRepeat),
        hint_of("AnySection"@) == Some(DocNodeKindHint::AnySection),
        hint_of("AnyChoice"@) == Some(DocNodeKindHint::AnyChoice),
        hint_of("Any"@) == Some(DocNodeKindHint::Any),
        hint_of(s) is Some && hint_of(s) == hint_of(t) ==> s == t,
{
    reveal_strlit("AnyScalar");
    reveal_strlit("AnyArray");
    reveal_strlit("AnyMatrix");
    reveal_strlit("AnyTuple");
    reveal_strlit("AnyRepeat");
    reveal_strlit("AnySection");
    reveal_strlit("AnyChoice");
    reveal_strlit("Any");
    assert("AnyScalar"@.len() == 9 && "AnyScalar"@[0] == 'A' && "AnyScalar"@[1] == 'n' && "AnyScalar"@[2] == 'y' && "AnyScalar"@[3] == 'S' && "AnyScalar"@[4] == 'c' && "AnyScalar"@[5] == 'a' && "AnyScalar"@[6] == 'l' && "AnyScalar"@[7] == 'a' && "AnyScalar"@[8] == 'r');
    assert("AnyArray"@.len() == 8 && "AnyArray"@[0] == 'A' && "AnyArray"@[1] == 'n' && "AnyArray"@[2] == 'y' && "AnyArray"@[3] == 'A' && "AnyArray"@[4] == 'r' && "AnyArray"@[5] == 'r' && "AnyArray"@[6] == 'a' && "AnyArray"@[7] == 'y');
    assert("AnyMatrix"@.len() == 9 && "AnyMatrix"@[0] == 'A' && "AnyMatrix"@[1] == 'n' && "AnyMatrix"@[2] == 'y' && "AnyMatrix"@[3] == 'M' && "AnyMatrix"@[4] == 'a' && "AnyMatrix"@[5] == 't' && "AnyMatrix"@[6] == 'r' && "AnyMatrix"@[7] == 'i' && "AnyMatrix"@[8] == 'x');
    assert("AnyTuple"@.len() == 8 && "AnyTuple"@[0] == 'A' && "AnyTuple"@[1] == 'n' && "AnyTuple"@[2] == 'y' && "AnyTuple"@[3] == 'T' && "AnyTuple"@[4] == 'u' && "AnyTuple"@[5] == 'p' && "AnyTuple"@[6] == 'l' && "AnyTuple"@[7] == 'e');
    assert("AnyRepeat"@.len() == 9 && "AnyRepeat"@[0] == 'A' && "AnyRepeat"@[1] == 'n' && "AnyRepeat"@[2] == 'y' && "AnyRepeat"@[3] == 'R' && "AnyRepeat"@[4] == 'e' && "AnyRepeat"@[5] == 'p' && "AnyRepeat"@[6] == 'e' && "AnyRepeat"@[7] == 'a' && "AnyRepeat"@[8] == 't');
    assert("AnySection"@.len() == 10 && "AnySection"@[0] == 'A' && "AnySection"@[1] == 'n' && "AnySection"@[2] == 'y' && "AnySection"@[3] == 'S' && "AnySection"@[4] == 'e' && "AnySection"@[5] == 'c' && "AnySection"@[6] == 't' && "AnySection"@[7] == 'i' && "AnySection"@[8] == 'o' && "AnySection"@[9] == 'n');
    assert("AnyChoice"@.len() == 9 && "AnyChoice"@[0] == 'A' && "AnyChoice"@[1] == 'n' && "AnyChoice"@[2] == 'y' && "AnyChoice"@[3] == 'C' && "AnyChoice"@[4] == 'h' && "AnyChoice"@[5] == 'o' && "AnyChoice"@[6] == 'i' && "AnyChoice"@[7] == 'c' && "AnyChoice"@[8] == 'e');
    assert("Any"@.len() == 3 && "Any"@[0] == 'A' && "Any"@[1] == 'n' && "Any"@[2] == 'y');
}

/// No two property tags of the schema are read as the same tag (a custom tag
/// aside, whose text is kept).
pub proof fn law_property_tags_stay_apart(d1: PropertyTagDto, d2: PropertyTagDto, t: DocPropertyTag)
    requires
        !(d1 is Custom),
        !(d2 is Custom),
        property_tag_matches(d1, t),
        property_tag_matches(d2, t),
    ensures
        d1 == d2,
{
}

/// No two character sets of the schema are read as the same set (a custom set
/// aside, whose characters are kept).
pub proof fn law_charsets_stay_apart(d1: CharSetSpecDto, d2: CharSetSpecDto, c: DocCharSetSpec)
    requires
        !(d1 is Custom),
        !(d2 is Custom),
        charset_matches(d1, c),
        charset_matches(d2, c),
    ensures
        d1 == d2,
{
}

} // verus!
