pub mod display;
pub mod error;
pub mod form;
pub mod oauth;
pub mod session;
pub mod spotify;
pub mod utils;
