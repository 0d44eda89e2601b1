//! The semantic index and query engine of a language server for Candid
//! interface definitions.
//!
//! A parsed document is analysed into a symbol table, arenas of metadata and
//! an interval index. Identifier lookup, hover, completion, diagnostics and
//! formatting answer from that index and from the text, with caches that
//! know the version they were computed for and tokens that tell a request
//! when a newer one has overtaken it. Every function carries a contract over
//! a mathematical model of its data, and each body is proved against it.
pub mod analysis;
pub mod candid_lang;
pub mod completion;
pub mod completion_cache;
pub mod completion_items;
pub mod completion_order;
pub mod config;
pub mod context_spans;
pub mod cursor_context;
pub mod diagnostics;
pub mod docs;
pub mod document;
pub mod events;
pub mod format;
pub mod format_lines;
pub mod hover;
pub mod ident_index;
pub mod markdown;
pub mod navigation;
pub mod offset_cache;
pub mod position;
pub mod requests;
pub mod rope;
pub mod scope_env;
pub mod scope_index;
pub mod semantic_analyze;
pub mod semantic_token;
pub mod service_snippets;
pub mod span;
pub mod span_search;
pub mod symbol_table;
pub mod syntax;
pub mod tasks;
pub mod text;
pub mod type_display;
pub mod type_docs;
