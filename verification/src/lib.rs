//! A typed, lossless model of the npm `package.json` manifest format.
//!
//! The library maps JSON documents onto a structured [`Package`] value and
//! back. Fields the model does not know are kept verbatim in
//! [`Package::others`], so a decode followed by an encode never drops
//! information at the top level of the document.

pub mod decode;
pub mod encode;
pub mod error;
pub mod json;
pub mod laws;
pub mod model;
pub mod text;

pub use crate::error::Error;
pub use crate::json::Json;
pub use crate::json::JsonView;
pub use crate::model::BinSet;
pub use crate::model::Bug;
pub use crate::model::BugView;
pub use crate::model::DepsSet;
pub use crate::model::EnginesSet;
pub use crate::model::ManReference;
pub use crate::model::ManReferenceView;
pub use crate::model::Package;
pub use crate::model::PackageView;
pub use crate::model::Person;
pub use crate::model::PersonReference;
pub use crate::model::PersonReferenceView;
pub use crate::model::PersonView;
pub use crate::model::Repository;
pub use crate::model::RepositoryReference;
pub use crate::model::RepositoryReferenceView;
pub use crate::model::RepositoryView;
pub use crate::model::ScriptsSet;
