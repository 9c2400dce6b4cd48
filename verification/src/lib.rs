//! Core logic of a profile-based launcher for an external game:
//! version resolution with an on-disk cache, streaming-download progress,
//! and the launch/exit state machine, each with a verified contract.

pub mod download;
pub mod launch;
pub mod profile;
pub mod settings;
pub mod strutil;
pub mod versions;
