pub mod explore;
pub mod inspect;
pub mod workbench;
pub mod value_panel_model;
