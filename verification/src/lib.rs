//! Generating sample test cases from competitive-programming AST share
//! links, with the link, version and document logic verified.

pub mod text;
pub mod external;
pub mod version;
pub mod update;
pub mod link_state;
pub mod ast;
pub mod ast_dto;
pub mod generable;
pub mod browse;
pub mod generation;
pub mod sample;
