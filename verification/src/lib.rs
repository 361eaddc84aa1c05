//! A client core for the GitHub REST API: it prepares requests, classifies
//! responses and walks paginated listings, and leaves the network to its caller.
pub mod actions;
pub mod checks;
pub mod comments;
pub mod credentials;
pub mod errors;
pub mod github;
pub mod issues;
pub mod json;
pub mod labels;
pub mod links;
pub mod media;
pub mod query;
pub mod repo_commits;
pub mod response;
pub mod review_comments;
pub mod scope;
pub mod sorting;
pub mod stream;
pub mod text;
pub mod time;
pub mod users;
pub mod utils;
pub mod workflows;

pub use crate::credentials::{AuthenticationConstraint, Credentials};
pub use crate::errors::{ClientError, Error, FieldErr};
pub use crate::github::{Github, Method, Request};
pub use crate::media::MediaType;
pub use crate::response::{Exchange, Page, Response};
pub use crate::stream::{PageStream, Step};
pub use crate::sorting::SortDirection;
