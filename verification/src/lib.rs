//! The decisions of a desktop meeting recorder.
//!
//! A recording is started and stopped, transcribed and summarized, listed, edited and deleted. What
//! only the surrounding program can do (files, devices, services, windows) is asked of it: a command
//! leaves a script behind, with the tasks to carry out and the question to answer next, and goes on
//! with what came of them.
pub mod api_log;
pub mod catalog;
pub mod catalog_course;
pub mod catalog_laws;
pub mod clock;
pub mod details;
pub mod json;
pub mod levels;
pub mod logging_laws;
pub mod menu;
pub mod pipeline;
pub mod pipeline_course;
pub mod pipeline_laws;
pub mod pipeline_scenarios;
pub mod recording;
pub mod recording_course;
pub mod recording_laws;
pub mod retry;
pub mod retry_course;
pub mod script;
pub mod secrets;
pub mod session;
pub mod settings;
pub mod task;
pub mod text;
pub mod text_editors;
pub mod ui_sync;
pub mod views;
pub mod windows;
