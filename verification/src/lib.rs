//! Verified core of the DeepSeek Harness desktop launcher.

pub mod text;
pub mod readiness;
pub mod paths;
pub mod json;
pub mod process;
pub mod update;
pub mod launch;
pub mod state;
pub mod encoding;
pub mod commands;
pub mod js;
pub mod update_flow;
