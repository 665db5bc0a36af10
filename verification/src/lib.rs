pub mod text_buffer;
pub mod text_box;
pub mod toggle_button;
pub mod menu;
pub mod radio_controller;
pub mod grid;
pub mod background;
pub mod move_resize;
pub mod window;
pub mod file_dialog;
pub mod popup;
pub mod dialogs;
pub mod high_dpi;
pub mod theme;
pub mod alignment;
pub mod view_models;
pub mod services;
pub mod selectors;
pub mod fonts;
pub mod grid_measure;
