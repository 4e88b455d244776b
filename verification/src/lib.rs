//! Verified code-generation logic for a family of derive, attribute and
//! function-like macros: builders, visibility rewriting, panic-to-result
//! rewriting, configuration structs and infrastructure provisioning plans.
//!
//! The macro front ends hand this library a plain description of their
//! input (see [`model`] and [`tokens`]); the library decides what code is
//! generated and returns it as Rust source text.

pub mod text;
pub mod greeting;
pub mod tokens;
pub mod model;
pub mod syntax;
pub mod builder;
pub mod error;
pub mod builder_exercise;
pub mod attrs;
pub mod builder_with_attribute;
pub mod panic_to_result;
pub mod employee;
pub mod make_public;
pub mod private;
pub mod build_back_better;
pub mod yaml_config;
pub mod iac;
