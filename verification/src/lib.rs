//! The decisions of the Vista Platform desktop shell: which webview shows, what
//! closes and what stays open during a call, and where a link leads.
//!
//! The shell is one window with a title bar and a content webview for each tab,
//! of which one shows. Everything here works on plain values; the windowing
//! toolkit is driven from outside, which hands in what happened and carries out
//! the answers.

pub mod laws;
pub mod model;
pub mod notice;
pub mod operations;
pub mod page;
pub mod routing;
pub mod scripts;
pub mod shell;
pub mod text;
pub mod update;
pub mod window;
