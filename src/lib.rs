//! Core of a binding generator for native libraries: the native type model,
//! the mapping of types onto a flat calling convention, the naming of
//! boundary functions, and the ledger of discovered declarations.
pub mod caption_strategy;
pub mod cpp_data;
pub mod cpp_ffi_data;
pub mod cpp_ffi_type;
pub mod cpp_method;
pub mod cpp_type;
pub mod database;
pub mod rust_info;
pub mod text;
