//! The installer and manager of the shell session: where its files go, what
//! each command does, and the files it writes.
pub mod paths;
pub mod config;
pub mod systemd;
pub mod arch;
pub mod commands;
pub mod repair;
pub mod update;
pub mod status;
pub mod uninstall;
pub mod install;
pub mod session;
