pub mod api;
pub mod ws;
