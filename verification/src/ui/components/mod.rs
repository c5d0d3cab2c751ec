pub mod explore_shell;
pub mod formula_editor_surface;
pub mod home_shell;
pub mod inspect_shell;
pub mod shell_frame;
pub mod workbench_shell;
