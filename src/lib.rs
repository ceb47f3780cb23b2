//! Helper methods for computing simple rectangle layout.
pub mod fixed;
pub mod rect;
pub mod laws;
