//! Client-side logic for a machine-orchestration control-plane API:
//! request planning, error classification, lease handling and
//! state-convergence scheduling, plus the machine data model.

pub mod classify;
pub mod config;
pub mod convergence;
pub mod duration;
pub mod durfmt;
pub mod error;
pub mod listing;
pub mod machine;
pub mod plans;
pub mod request;
pub mod strmap;
pub mod strutil;
pub mod types;
