pub mod brp;
pub mod view;
