//! Finite-state machines from a small declarative description.
//!
//! `parser` reads a description (a machine name, its events with their
//! parameter types, and its states) from token trees; `generator` turns it
//! into the source text of a typed dispatch runtime. `machine` is the
//! dispatch engine itself, with its ordering and error guarantees proved;
//! `blinky`, `coin_machine` and `simple_coin_machine` are machines built on
//! it.

use vstd::prelude::*;

pub mod blinky;
pub mod coin_machine;
pub mod generator;
pub mod machine;
pub mod parser;
pub mod render;
pub mod simple_coin_machine;

verus! {

} // verus!
