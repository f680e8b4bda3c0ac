//! A density-graph evaluator for declarative voxel world generation.
//!
//! Terrain shape is authored as JSON documents describing a directed graph
//! of numeric and noise operations.  This crate turns such a document into
//! an executable node tree ([`evaluator::DensityEvaluator`]) and evaluates
//! it at world coordinates, and it lints whole documents against the known
//! node-type names and their per-type field rules ([`validation`]).
//!
//! Every scalar is carried as the bit pattern of an IEEE-754 binary64
//! value: [`fbits`] gives the patterns their meaning and proves the
//! comparison, saturation and magnitude operations against it, while the
//! rounded arithmetic itself is performed by a software IEEE-754
//! implementation behind the named operations of [`arith`].

pub mod arith;
pub mod assets;
pub mod evaluator;
pub mod fbits;
pub mod json;
pub mod nodes;
pub mod text;
pub mod validation;
