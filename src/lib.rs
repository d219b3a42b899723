pub mod cycle;
pub mod decimal;
pub mod geometry;
pub mod laws;
pub mod marker_detection;
