//! A runtime for the scripting language of a 2D game engine: values and
//! operators, the compiled instruction tree, the instance model and the
//! evaluator that runs scripts against it.

pub mod number;
pub mod value;
pub mod variable;
pub mod error;
pub mod operator;
pub mod field;
pub mod tree;
pub mod asset;
pub mod instance;
pub mod game;
pub mod reading;
pub mod writing;
pub mod semantics;
pub mod access;
pub mod evaluator;
pub mod executor;
pub mod atlas;
pub mod message;
pub mod laws;
