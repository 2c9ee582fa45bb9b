//! Verified core of `rdg`, a tool that deploys selected files of a Git
//! repository with rsync.

pub mod app;
pub mod command;
pub mod git;
pub mod input;
pub mod keymap;
pub mod layout;
pub mod path_order;
pub mod rsync;
pub mod text;
pub mod theme;
pub mod tree;
pub mod view;
pub mod watcher;
