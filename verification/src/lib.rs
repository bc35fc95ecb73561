//! Domain types, settings and request planning for a newsletter
//! subscription service, with their behaviour proved by Verus.

pub mod text;
pub mod email;
pub mod name;
pub mod subscriber;
pub mod subscriptions;
pub mod settings;
pub mod email_client;
