//! A universal dice library: dice with arbitrary faces, composable rollers
//! (pools, sums and differences, modifiers, constants), grouped and sampled
//! rolls, all evaluated against one deterministic random stream.
//!
//! A [`dice::Die`] has a name and faces; a face has a label and is worth one
//! or more [`Value`]s, each an amount counted in a [`Unit`]. Totals are kept
//! in [`Values`], which hold at most one amount for each unit. Amounts are
//! added in two's complement: a sum that leaves the range of `i32` wraps
//! around.
//!
//! A roller of [`rollers`] says what to roll and describes itself, such as
//! `4d6 drop lowest`. Rolling it on a [`random::Rng`] gives a roll, which
//! shows what was rolled and adds up to totals. What a roller gives is a
//! function of the roller and of the seed of the generator: the contracts
//! state it as `rolled`, so that a roll can be replayed from its seed.

pub mod dice;
pub mod name;
pub mod premade;
pub mod random;
pub mod rollers;
mod share;
pub mod storage;
pub mod text;
pub mod units;
pub mod value;

pub use name::{Name, NameError};
pub use units::Unit;
pub use value::{Value, Values};
