//! A bounded, keyword-focused web crawler core: seed normalisation, content
//! extraction and scoring, link resolution, and the traversal state machines
//! that enforce the page and time budgets.

pub mod bindings;
pub mod clock;
pub mod discovery;
pub mod error;
pub mod extract;
pub mod keywords;
pub mod laws;
pub mod links;
pub mod model;
pub mod normalize;
pub mod orchestrator;
pub mod text;
pub mod traversal;
