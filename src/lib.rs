//! A vendor that offers a fixed catalog of serialized products at rotating
//! prices, admits catalog reads once enough buyers have subscribed, and
//! decides buyers' offers against the live prices.

pub mod catalog;
pub mod subscription;
pub mod laws;
pub mod service;

pub use catalog::{Catalog, Product, ServiceError, PRICE_MAX, PRICE_MIN};
pub use subscription::{SubscriptionCounter, DEFAULT_QUORUM};
pub use service::{accepts_offer, ReadOutcome, OfferImpl, ProductImpl, SubscribeImpl, SubscribeReply};
