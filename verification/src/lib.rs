//! Validation of a subgraph's routing URL before a publish.
//!
//! A candidate URL is parsed and sorted into one of four classes
//! ([`classify`]). The class and the terminal context decide the next step
//! ([`protocol`]): go ahead, warn and go ahead, ask the user, or fail. The
//! answer to a question is one byte; only `y` or `Y` lets the publish go
//! ahead. [`Publish`] runs all of this on streams held in memory; a caller
//! with real streams takes the step from [`protocol::plan`], does the writing
//! and reading itself, and hands the answer to [`protocol::conclude`].
//!
//! The URL parser is the one that `reqwest` re-exports. Nothing is proved of
//! it; every contract that depends on its answer says so by naming
//! [`url::url_parse`]. What holds for every candidate is stated in [`laws`].

pub mod classify;
pub mod error;
pub mod laws;
pub mod message;
pub mod protocol;
pub mod publish;
pub mod stream;
pub mod text;
pub mod url;

pub use classify::Classification;
pub use error::{ErrorKind, RoverError, RoverErrorSuggestion, RoverResult};
pub use protocol::{ConfirmationOutcome, Step};
pub use publish::Publish;
