//! Credential/session layer and request dispatcher for a payment platform's REST API.

pub mod api;
pub mod config;
pub mod entity;
pub mod errors;
pub mod json;
pub mod scope;
pub mod services;
pub mod session;

pub use config::{Config, GrantType};
pub use entity::{AccessToken, PaymentMethod};
pub use errors::{AuthError, Error, JsonError, Message, Response};
pub use json::Json;
pub use scope::{Scope, Scopes};
pub use api::{Api, Method, Reply, Request};
pub use session::{Opening, Pending, SumUp};
