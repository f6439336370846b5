use vstd::prelude::*;

pub mod text;
pub mod adb;
pub mod video_stream;
pub mod device_controller;
pub mod scrcpy_server;
pub mod dependency_manager;
pub mod config_store;
pub mod agent_manager;
pub mod scrcpy;
pub mod ws_scrcpy_server;
pub mod install_mode;
pub mod device_agent_installer;
pub mod workspace_manager;
pub mod commands;

verus! {
} // verus!
