pub mod merkle;
pub mod trust_anchor;
pub mod trust_edge;
