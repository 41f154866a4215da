//! Release automation for Xcode projects with Sparkle updates: the verified
//! core. It reads the `.deployment` settings, chooses and bumps versions,
//! decides what commands a release runs and where its files go; running the
//! commands and touching files is left to the caller.

pub mod command;
pub mod decimal;
pub mod dmg;
pub mod release;
pub mod settings;
pub mod sync;
pub mod template;
pub mod text;
pub mod version;
