//! Verified core of the novel downloader's user interfaces: input parsing,
//! configuration editing rules, chapter ranges, session tokens, the job store
//! of the web interface and the list/selection state of the terminal interface.

pub mod auth;
pub mod book_id;
pub mod cli_config;
pub mod cli_flow;
pub mod clock;
pub mod config;
pub mod config_screen;
pub mod console;
pub mod cover_ascii;
pub mod detail;
pub mod home;
pub mod home_screen;
pub mod jobs;
pub mod library;
pub mod nav;
pub mod panels;
pub mod notes;
pub mod range;
pub mod screens;
pub mod search_json;
pub mod text;
pub mod tui_config;
pub mod updates;
pub mod web;

use vstd::prelude::*;

verus! {

/// How the terminal interface ended.
#[derive(Debug, Clone, Copy, PartialEq, Eq)]
pub enum TuiExit {
    Quit,
    SwitchToOldCli,
    SelfUpdate { auto_yes: bool },
}

} // verus!
