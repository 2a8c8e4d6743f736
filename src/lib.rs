//! Decisions of a release run over a multi-package workspace: which packages
//! are released, in which order, what is asked of the user, which version
//! control and registry commands are issued, and when the run stops.
//!
//! The run is a state machine: the caller performs the pending action, hands
//! back what came of it as an event, and asks for the next action.

pub mod catalog;
pub mod laws;
pub mod lookup;
pub mod release;
