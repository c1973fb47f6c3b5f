pub mod text;
pub mod library;
pub mod theme;
pub mod icons;
pub mod download;
pub mod screen;
pub mod layout;
