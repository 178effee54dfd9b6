//! The command, query and event-sourcing core of a URL-shortening service.
//!
//! Commands (create a short link, follow a redirect) are validated against
//! the current read models and, if accepted, become immutable events in an
//! append-only log. Everything that can be queried (which URL a slug points
//! to, how often it was followed) is a projection: the result of folding
//! the log, event by event, from the empty state.
//!
//! - [`model`]: slugs, URLs, short links, statistics, errors.
//! - [`event`]: events and the log.
//! - [`projection`]: the fold, and the slug registry and click counters
//!   that implement it.
//! - [`replay`]: rebuilding both projections from a log.
//! - [`commands`], [`queries`]: the two handler traits and what each
//!   operation decides.
//! - [`service`]: the service that implements both handlers.
//! - [`capability`]: URL validation and slug generation, which the core
//!   uses but does not define.
//! - [`laws`]: what holds of every history the service can produce.

pub mod capability;
pub mod commands;
pub mod event;
pub mod laws;
pub mod model;
pub mod projection;
pub mod queries;
pub mod replay;
pub mod service;

pub use model::{ShortLink, ShortLinkView, ShortenerError, Slug, Stats, StatsView, Url};
pub use service::UrlShortenerService;
