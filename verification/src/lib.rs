//! A multi-provider URL-shortening client core: a catalog of shortening
//! services with a quality ranking, per-provider request construction and
//! response extraction, and a fallback dispatcher that tries providers in
//! rank order until one yields a short URL. The HTTP transport itself is an
//! external collaborator supplied through the [`dispatch::Transport`] trait.

pub mod catalog;
pub mod extract;
pub mod dispatch;
pub mod registry;
pub mod request;

pub use catalog::Provider;
pub use catalog::providers;
pub use dispatch::ShortenOutcome;
pub use dispatch::Transport;
pub use dispatch::TransportError;
pub use dispatch::outcome_from_response;
pub use dispatch::shorten_from_response;
pub use dispatch::shorten_via_outcome;
pub use dispatch::shorten_via;
pub use dispatch::shorten_with_fallback;
pub use registry::parse;
pub use request::Method;
pub use request::RequestSpec;
pub use request::build_request;
