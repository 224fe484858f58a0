//! Definitions shared by the features of the ratings service.
pub mod band_order;
pub mod entities;
pub mod lower_bound;
