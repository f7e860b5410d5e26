use vstd::prelude::*;

pub mod text;
pub mod clipboard;
pub mod config;
pub mod filter;
pub mod app;
pub mod navigation;
pub mod tabs;
pub mod version;
pub mod commands;
pub mod browse;
pub mod palette;
pub mod context;
pub mod terminal;
pub mod updater;
pub mod doom;
pub mod pong;
pub mod keys;
pub mod events;
pub mod view;
pub mod cells;
pub mod install;
pub mod laws;

verus! {

/// The version of the program.
pub fn current_version() -> (v: &'static str)
    ensures
        v@ == "0.1.0"@,
{
    "0.1.0"
}

} // verus!
