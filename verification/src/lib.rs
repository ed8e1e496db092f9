//! Source text for the swizzle accessors of 2-, 3- and 4-component vectors.
//!
//! Every accessor stands for one index tuple. The index domain enumerates the
//! tuples, the encoders turn one tuple into an expression for one backend, and
//! the emitters assemble whole artifacts from them.

pub mod index;
pub mod encode;
pub mod emit;
pub mod blocks;
pub mod testgen;
pub mod plan;
