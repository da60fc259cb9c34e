//! Read models for moderation reports filed against comments.
//!
//! An [`store::EntityStore`] is a snapshot of the tables that a report view is
//! joined from. Every operation of this crate is a verified function over such
//! a snapshot: composing one view row, looking one report up, listing the
//! reports a viewer may see, counting the open ones, and resolving a report.

pub mod count;
pub mod error;
pub mod entities;
pub mod ids;
pub mod laws;
pub mod ordering;
pub mod pagination;
pub mod query;
pub mod report_view;
pub mod resolution;
pub mod saved_posts;
pub mod store;
pub mod table;
