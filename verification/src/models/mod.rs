pub mod simplify_digging;
pub mod responses;
