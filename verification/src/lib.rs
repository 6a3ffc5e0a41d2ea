pub mod answer_laws;
pub mod app;
pub mod candidates;
pub mod change_laws;
pub mod changes;
pub mod changes_keys;
pub mod commit_browser;
pub mod config;
pub mod config_editor;
pub mod consent;
pub mod create;
pub mod dialog_laws;
pub mod dialogs;
pub mod forms;
pub mod geometry;
pub mod help;
pub mod highlight;
pub mod history;
pub mod history_laws;
pub mod input;
pub mod key_laws;
pub mod keys;
pub mod laws;
pub mod marks;
pub mod modal;
pub mod modal_keys;
pub mod model;
pub mod mouse;
pub mod operations;
pub mod pace;
pub mod paint_laws;
pub mod panes;
pub mod paths;
pub mod pick_laws;
pub mod request;
pub mod resolver;
pub mod resolver_laws;
pub mod result_laws;
pub mod rows;
pub mod setup;
pub mod setup_laws;
pub mod styled;
pub mod tabs;
pub mod text;
pub mod text_laws;
pub mod theme;
pub mod ticks;
pub mod tree;
pub mod tree_laws;
pub mod view_laws;
