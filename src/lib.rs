//! A push-notification relay: a durable registry from user tokens to device
//! tokens, and the decisions that turn a push request into a notification.
pub mod keys;
pub mod store;
pub mod registry;
pub mod config;
pub mod dispatch;
pub mod provider;
