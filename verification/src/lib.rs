//! Sequencing for the BPF-loader ledger fixtures.
//!
//! A ledger fixture is produced by running ten deployment scenarios against a
//! node, one after the other. This crate holds the part of that job that can
//! be reasoned about: which scenario runs when, what each one is handed, and
//! what happens to the run when one of them fails. Talking to the node is
//! left to the caller, who supplies the routine that carries a scenario out.
//!
//! - `scenario`: the ten scenarios and their schedule.
//! - `model`: a run as mathematics, against which everything else is stated.
//! - `ledgers`: the run itself, whole or step by step.
//! - `sequencing`: what holds of a run from its first call to its last.

pub mod ledgers;
pub mod model;
pub mod scenario;
pub mod sequencing;
