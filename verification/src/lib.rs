//! Path addressing for hierarchical configuration trees.
//!
//! A path is an ordered sequence of segments describing how to descend from
//! the root of a configuration tree to a target node. Two path families are
//! provided: [`node_path`] holds the typed path, whose segments are structural
//! node-kind tokens, and [`path`] holds the string-segment path, with a
//! borrowed zero-copy view and an owned growable buffer.

pub mod node_path;
pub mod path;
