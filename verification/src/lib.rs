//! The discrete core of an early-warning engine.
//!
//! The engine tracks a probability distribution per entity, measures how far
//! two entities' distributions are apart, watches that measure for phase
//! transitions, and raises levelled alerts. This crate holds what the engine
//! keeps and decides: the registry of entities and the pairs they form, the
//! bounded histories, the stages of the detector, the rankings, and the
//! rules that turn numbers into phases, risk categories and alert levels.
//!
//! Numbers are IEEE-754 doubles held by their bit patterns (`scalar`). The
//! crate compares and selects them, exactly as the format orders them
//! (`ieee`), and never computes with them: sums, logarithms and square roots
//! are the caller's, who hands their results in.
//!
//! - `scalar`, `ieee`: doubles as bit patterns, and their order.
//! - `error`: failures, and the comparison of lengths.
//! - `window`: rings and trailing histories.
//! - `ranking`, `labels`: the largest items of a list, and default names.
//! - `scheme`, `grievance`, `potential`: what is kept per entity and pair.
//! - `dyad`: the key of an unordered pair.
//! - `model`: the registry, updates, potentials, pairs, alignment paths.
//! - `phase`, `detector`: the phase rule and the variance-inflection
//!   detector.
//! - `risk`, `alert`: risk categories and alert levels.
//! - `shepherd`: a detector per pair, and the alerts it leads to.
//! - `signal`: windows for streaming statistics.
//! - `stream`: which events are new and which pairs are silenced.

pub mod alert;
pub mod detector;
pub mod dyad;
pub mod error;
pub mod grievance;
pub mod ieee;
pub mod labels;
pub mod model;
pub mod phase;
pub mod potential;
pub mod ranking;
pub mod risk;
pub mod scalar;
pub mod scheme;
pub mod shepherd;
pub mod signal;
pub mod stream;
pub mod window;
