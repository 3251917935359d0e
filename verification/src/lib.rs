//! Normalisation of generated project designs and task breakdowns.
//!
//! A weakly typed record produced by a text generator is turned into a
//! design document (components, technology choices, a file tree) and a
//! task list, with explicit defaults for everything that is missing.
//!
//! - `raw` holds the weakly typed record, `json` reads and writes it as text.
//! - `path` sanitises one path, `structure` builds the project tree.
//! - `design` and `tasks` assemble the two documents, `architect` reads both
//!   from one response.
//! - `snapshot` and `markdown` are the persisted forms of the documents,
//!   `validation` checks the dependencies among tasks.
//! - `output` and `tool_summary` decide what a console shows at which level.

pub mod architect;
mod clock;
pub mod design;
pub mod errors;
pub mod json;
pub mod markdown;
pub mod models;
pub mod output;
pub mod path;
pub mod provider;
pub mod raw;
pub mod snapshot;
pub mod structure;
pub mod tasks;
pub mod text;
pub mod tool_summary;
pub mod validation;
