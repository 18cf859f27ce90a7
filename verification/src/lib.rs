//! A small verified library around a blog-post publishing workflow.
//!
//! The `blog` module holds the core: a post that moves through the states
//! Draft, PendingReview and Published, appends text only while a Draft,
//! needs two approvals to publish, and shows its text only once Published.
//! The `kitchen` module holds a few independent helpers that pass an
//! optional ingredient through a preparation pipeline.

pub mod blog;
pub mod kitchen;
