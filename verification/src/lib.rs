//! Front-end of the Mun language: lossless syntax trees with typed views,
//! arena storage, line tables, per-file diagnostics and a snapshot interface
//! for editors.

pub mod abi;
pub mod analysis;
pub mod arena;
pub mod ast;
pub mod builder;
pub mod cancelation;
pub mod capabilities;
pub mod db;
pub mod change;
pub mod diagnostics;
pub mod file_structure;
pub mod green;
pub mod hir;
pub mod ids;
pub mod interner;
pub mod item_tree;
pub mod lexer;
pub mod line_index;
pub mod memo;
pub mod parser;
pub mod symbol_kind;
pub mod syntax_kind;
pub mod syntax_node;
pub mod text;
pub mod to_lsp;
