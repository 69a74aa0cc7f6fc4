//! Runyte's editing core: character-offset movement over a document, the
//! selection models of its two key grammars, and the state machines that own
//! input (prompts, confirmations, menus, pickers, plugin surfaces, language
//! service permission and parent-terminal waits).

pub mod chars;
pub mod text;
pub mod movement;
pub mod selection;
pub mod spans;
pub mod motion;
pub mod strings;
pub mod keys;
pub mod prompt;
pub mod menu;
pub mod vim;
pub mod surface;
pub mod app;
pub mod programs;
pub mod confirm;
pub mod lsp;
pub mod menus;
pub mod text_input;
pub mod plugin_input;
pub mod picker;
pub mod list;
pub mod completion;
pub mod route;
pub mod retire;
pub mod pipe;
pub mod validation;
pub mod plugin_fs;
pub mod provider;
pub mod edits;
pub mod lsp_events;
