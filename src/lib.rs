//! Signature-driven stub generation for handler blocks of a program.
//!
//! Handler declarations (plain function signatures) are compiled into a
//! request union, a response union, a dispatch function and a host entry
//! point. A discovery registry coordinates the command and query blocks that
//! stand directly inside one program scope.

pub mod error;
pub mod naming;
pub mod signature;
pub mod handler_parts;
pub mod handlers;
pub mod entry_point;
pub mod blocks;
pub mod gprogram;
