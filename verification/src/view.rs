pub mod hx;
pub mod ui;
