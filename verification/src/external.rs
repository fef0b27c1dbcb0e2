//! Outside types that the library's values carry through unopened.
use vstd::prelude::*;

verus! {

/// `std::io::Error`, the failure of an operating-system operation.
#[verifier::external_type_specification]
#[verifier::external_body]
pub struct ExIoError(std::io::Error);

/// `serde_json::Error`, a JSON syntax or data error.
#[verifier::external_type_specification]
#[verifier::external_body]
pub struct ExJsonError(serde_json::Error);

/// `cp_ast_core::operation::AstEngine`, a problem's input structure and constraints.
#[verifier::external_type_specification]
#[verifier::external_body]
pub struct ExAstEngine(cp_ast_core::operation::AstEngine);

/// `cp_ast_core::sample::GeneratedSample`, the values generated for one sample.
#[verifier::external_type_specification]
#[verifier::external_body]
pub struct ExGeneratedSample(cp_ast_core::sample::GeneratedSample);

/// `cp_ast_core::sample::GenerationError`, why no sample could be generated.
#[verifier::external_type_specification]
#[verifier::external_body]
pub struct ExGenerationError(cp_ast_core::sample::GenerationError);

/// `cp_ast_json::ConversionError`, why a document or share state could not be read.
#[verifier::external_type_specification]
#[verifier::external_body]
pub struct ExConversionError(cp_ast_json::ConversionError);

/// `cp_ast_core::constraint::Constraint`, a constraint of a cp-ast-core document.
#[verifier::external_type_specification]
#[verifier::external_body]
pub struct ExCoreConstraint(cp_ast_core::constraint::Constraint);

/// `cp_ast_core::constraint::Expression`, an integer formula of a cp-ast-core document.
#[verifier::external_type_specification]
#[verifier::external_body]
pub struct ExCoreExpression(cp_ast_core::constraint::Expression);

/// `cp_ast_core::structure::Reference`, a variable reference of a cp-ast-core document.
#[verifier::external_type_specification]
#[verifier::external_body]
pub struct ExCoreReference(cp_ast_core::structure::Reference);

/// `cp_ast_core::constraint::ArithOp`, an arithmetic operator.
#[verifier::external_type_specification]
#[verifier::external_body]
pub struct ExCoreArithOp(cp_ast_core::constraint::ArithOp);

/// `cp_ast_core::constraint::RelationOp`, a comparison operator.
#[verifier::external_type_specification]
#[verifier::external_body]
pub struct ExCoreRelationOp(cp_ast_core::constraint::RelationOp);

/// `cp_ast_core::constraint::ExpectedType`, a declared value type.
#[verifier::external_type_specification]
#[verifier::external_body]
pub struct ExCoreExpectedType(cp_ast_core::constraint::ExpectedType);

/// `cp_ast_core::constraint::DistinctUnit`, a distinctness unit.
#[verifier::external_type_specification]
#[verifier::external_body]
pub struct ExCoreDistinctUnit(cp_ast_core::constraint::DistinctUnit);

/// `cp_ast_core::constraint::SortOrder`, a sort order.
#[verifier::external_type_specification]
#[verifier::external_body]
pub struct ExCoreSortOrder(cp_ast_core::constraint::SortOrder);

/// `cp_ast_core::constraint::PropertyTag`, a structural property.
#[verifier::external_type_specification]
#[verifier::external_body]
pub struct ExCorePropertyTag(cp_ast_core::constraint::PropertyTag);

/// `cp_ast_core::constraint::CharSetSpec`, a character set.
#[verifier::external_type_specification]
#[verifier::external_body]
pub struct ExCoreCharSetSpec(cp_ast_core::constraint::CharSetSpec);

/// `cp_ast_core::constraint::RenderHintKind`, a rendering hint.
#[verifier::external_type_specification]
#[verifier::external_body]
pub struct ExCoreRenderHintKind(cp_ast_core::constraint::RenderHintKind);

/// `cp_ast_core::structure::NodeId`, a node's number.
#[verifier::external_type_specification]
#[verifier::external_body]
pub struct ExCoreNodeId(cp_ast_core::structure::NodeId);

/// `cp_ast_core::structure::NodeKind`, what a structure node is.
#[verifier::external_type_specification]
#[verifier::external_body]
pub struct ExCoreNodeKind(cp_ast_core::structure::NodeKind);

/// `cp_ast_core::structure::StructureNode`, a node of the input structure.
#[verifier::external_type_specification]
#[verifier::external_body]
pub struct ExCoreStructureNode(cp_ast_core::structure::StructureNode);

/// `cp_ast_core::structure::Literal`, a choice variant's tag value.
#[verifier::external_type_specification]
#[verifier::external_body]
pub struct ExCoreLiteral(cp_ast_core::structure::Literal);

/// `cp_ast_core::structure::NodeKindHint`, what kind of node a hole expects.
#[verifier::external_type_specification]
#[verifier::external_body]
pub struct ExCoreNodeKindHint(cp_ast_core::structure::NodeKindHint);

} // verus!
