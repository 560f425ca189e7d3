//! A weighted-grammar generator of expression trees for procedural images.
//!
//! A [`grammar::Grammar`] holds production rules whose alternatives are
//! template trees with integer weights. Generation samples alternatives with
//! draws from a seeded linear congruential stream and expands templates
//! recursively under a depth budget. Numbers are fixed-point integers in
//! billionths, so that the whole engine is exact and its result is a pure
//! function of the rule table, the seed, the starting rule and the budget.
use vstd::prelude::*;

pub mod node;
pub mod rng;
pub mod seed;
pub mod text;
pub mod grammar;
