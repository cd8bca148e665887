//! A newsletter back end: subscription with e-mailed confirmation tokens, and publication of
//! issues to confirmed subscribers by an authenticated user.

pub mod domain;
pub mod email;
pub mod form;
pub mod login;
pub mod newsletters;
pub mod startup;
pub mod subscriptions;
pub mod subscriptions_confirm;
pub mod text;
