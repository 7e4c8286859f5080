//! The dashboard's commands: scaffold, Git utilities, skills.sh and key handling.
pub mod dashboard;
pub mod git_utils;
pub mod init;
pub mod templates;
pub mod skills;
