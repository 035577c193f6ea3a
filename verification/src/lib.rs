//! A Brigadier-style command system: a runtime dispatch trie resolving token
//! sequences to registered handlers, a builder that grows the trie and a flat,
//! index-addressed node graph in lockstep, and the bit-packed binary encoding
//! of that node graph for the Minecraft "declare commands" wire format.

pub mod builder;
pub mod command;
pub mod context;
pub mod error;
pub mod executor;
pub mod flags;
pub mod mapper;
pub mod node;
pub mod parser;
pub mod wire;

pub use error::DecodeError;
