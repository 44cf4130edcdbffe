//! Decision logic of a Discord anti-spam honeypot bot: which files of a
//! message are hashed, how image hashes are recorded and removed, how a
//! message posted in the honeypot channel is answered, and how a banned
//! user earns an unban by solving a captcha.

pub mod commands;
pub mod errors;
pub mod files;
pub mod hashing;
pub mod hashing_laws;
pub mod honeypot;
pub mod honeypot_laws;
pub mod text;
