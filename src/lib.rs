//! Bootstraps a hosted repository for a local working copy: the decisions of
//! the provisioning workflow, verified, with the external commands and the
//! console left to the caller.

pub mod name;
pub mod text;
pub mod answer;
pub mod remote;
pub mod workflow;
