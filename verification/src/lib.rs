pub mod boxes;
pub mod dates;
pub mod encode;
pub mod geometry;
pub mod lines;
pub mod numfmt;
pub mod page;
pub mod player;
pub mod screen;
pub mod text;
