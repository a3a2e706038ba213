//! The logic behind the Python face of the indexing engine.
//!
//! A flow is rendered as sections of lines (`render`) and its data's schema is listed as rows
//! (`schema`); `flow` puts both where Python finds them. `setup` bundles changes to what flows have
//! set up, `transient` matches arguments with input fields, `live` holds what live updaters report,
//! and `errors` words what goes wrong. `calls` plans the entry points whose work lies outside. The
//! `_laws` modules state what holds of all listings, renderings and calls, over their inputs and
//! results alone.

pub mod call_laws;
pub mod calls;
pub mod context;
pub mod error_laws;
pub mod errors;
pub mod flow;
pub mod json;
pub mod line_laws;
pub mod live;
pub mod live_laws;
pub mod render;
pub mod render_laws;
pub mod rendered;
pub mod row_laws;
pub mod schema;
pub mod schema_laws;
pub mod sections;
pub mod setup;
pub mod setup_laws;
pub mod spec;
pub mod text;
pub mod text_laws;
pub mod transient;
pub mod transient_laws;
