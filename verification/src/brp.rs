pub mod books;
pub mod content;
pub mod model;
