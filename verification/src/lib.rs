//! Planning, fixture and reporting logic of a zkVM benchmark runner.

pub mod backend_laws;
pub mod cli;
pub mod course_laws;
pub mod duration;
pub mod fixture_laws;
pub mod guest_programs;
pub mod guests;
pub mod instances;
pub mod iteration;
pub mod metrics;
pub mod option_laws;
pub mod output;
pub mod path_laws;
pub mod plan;
pub mod process;
pub mod process_laws;
pub mod reth_input;
pub mod runner;
pub mod span_laws;
pub mod stateless_validator;
pub mod text;
pub mod zisk_eth_client;
pub mod zkvm;
