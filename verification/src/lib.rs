//! Verified core of a Jira pane for herdr: prompt and branch-name rendering,
//! configuration defaults, herdr CLI response handling and the state of the
//! interactive issue browser.

pub mod text;
pub mod branch;
pub mod config;
pub mod flows;
pub mod herdr;
pub mod issue;
pub mod json;
pub mod keyed;
pub mod naming;
pub mod pane;
