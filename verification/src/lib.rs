//! Verified core of a malicious-package scanner for the PyPI and npm feeds:
//! rule evaluation, risk scoring, prompt sanitisation and response parsing.
pub mod analysis;
pub mod api;
pub mod config;
pub mod db;
pub mod feed;
pub mod glitch;
pub mod init;
pub mod output;
pub mod pipeline;
pub mod quarantine;
pub mod text;
