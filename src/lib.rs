//! Booking persistence for a pet-care appointment service: validated mapping of
//! submitted form fields into typed appointment records, the SQL those records
//! are stored with, the pages that report the outcome, and the pooled writer.
pub mod fields;
pub mod record;
pub mod appointment;
pub mod statement;
pub mod store;
pub mod page;
pub mod booking;
