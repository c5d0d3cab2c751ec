pub mod components;
pub mod editor;
pub mod panels;
