//! Small general-purpose containers.

pub mod non_empty_vector;
