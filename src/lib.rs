//! Orchestration of yt-dlp downloads: the argument lists of each invocation,
//! download modes and social media presets, URL sanitation, classification of
//! failures, and the bounded, cancellable batch scheduler whose decisions a
//! runtime carries out.

pub mod args_builder;
pub mod classify;
pub mod cli;
pub mod config;
pub mod dependencies;
pub mod downloader;
pub mod error;
pub mod mode;
pub mod text;
pub mod url_validator;
