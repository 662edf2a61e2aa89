//! Synchronises every git repository found under a root folder: commits
//! local changes, pulls, resolves conflicts by keeping the local side, and
//! pushes. The decisions are verified here; running git, touching files and
//! printing are left to the program around the library.
pub mod text;
pub mod ui;
pub mod config;
pub mod path;
pub mod git;
pub mod clock;
pub mod machine;
pub mod ops;
pub mod sync;
pub mod sync_machine;
pub mod logger;
pub mod status;
pub mod network;
pub mod lock;
pub mod watch;
pub mod cli;
pub mod menu;
pub mod system;
pub mod selfupdate;
pub mod session;
pub mod repos;
