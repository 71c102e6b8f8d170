//! Verified core of a terminal tool that records points in the plane and finds
//! the polynomial through them, the circle through them, or the area of the
//! polygon they span.

pub mod float_parser;
pub mod app;
pub mod points;
pub mod area;
pub mod circle;
pub mod polynomial;
pub mod view;
pub mod laws;
