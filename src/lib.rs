//! Invoice generation and numbering for a freelance time-tracking backend.
//!
//! The library holds the decisions: validation of requests, aggregation of
//! work sessions into line items, invoice numbering, status changes and
//! dashboard figures. Storage, files and PDF rendering stay with the caller,
//! which hands plain values in and acts on the plain values that come back.

pub mod digits;
pub mod clock;
pub mod calendar;
pub mod error;
pub mod numbering;
pub mod billing;
pub mod text;
pub mod status;
pub mod generation;
pub mod dashboard;
pub mod i18n;
pub mod document;
pub mod config;
pub mod health;
pub mod lifecycle;
