//! OAuth2 authorization for a client of a remote REST API: the script and
//! installed-app trust models, the loopback callback listener's decisions,
//! and the token lifecycle of an authorized session.

pub mod form;
pub mod callback;
pub mod decimal;
pub mod session;
pub mod flow;
pub mod sort;
pub mod user;

pub use callback::{CallbackOutcome, CallbackServer, Page, RejectReason};
pub use flow::{AuthAction, AuthEvent, AuthFlow, OauthApp};
pub use session::{AuthError, Grant, OAuth, TokenRequest, TokenResponse, TOKEN_URL};
pub use sort::{Sort, SortTime};
pub use user::UserPreferences;
