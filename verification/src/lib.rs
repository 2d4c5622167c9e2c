//! Resolution of archive files to trusted extraction tools and the command
//! lines that drive them.
//!
//! A file's name gives an extension key (`key`); the `registry` maps keys to
//! format adapters (`extractor`, `kind`); an adapter names candidate tools,
//! of which the first that is installed in a trusted place is taken
//! (`resolve`, `trust`), and builds the tool's invocation (`command`). The
//! stages of one dispatch and of a batch are decided in `stage` and
//! `dispatch`, the supervision of the running tool in `supervisor`, and the
//! overview of what the host offers in `health`.

pub mod command;
pub mod dispatch;
pub mod error;
pub mod extractor;
pub mod health;
pub mod key;
pub mod kind;
pub mod paths;
pub mod registry;
pub mod resolve;
pub mod stage;
pub mod supervisor;
pub mod text;
pub mod trust;
