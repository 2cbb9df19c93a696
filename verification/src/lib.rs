//! Skill registry core of the agent runtime: wire types and their
//! normalisation, the requirement gate, the lockfile model, the install state
//! machine and the browser tool's command handling, with machine-checked
//! contracts.

pub mod clawhub;
pub mod json;
pub mod text;
pub mod tools;
