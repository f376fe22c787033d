//! AutoLaunch core: the verified logic behind analysing, configuring and
//! launching GitHub projects.

pub mod text;
pub mod error;
pub mod matching;
pub mod json;
pub mod url_parser;
pub mod models;
pub mod paths;
pub mod ids;
pub mod security_scanner;
pub mod environment_manager;
pub mod process_controller;
pub mod settings_manager;
pub mod snapshot_manager;
pub mod project_analyzer;
pub mod project_manager;
