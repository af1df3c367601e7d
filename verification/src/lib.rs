//! Core logic of a multi-service desktop shell: the application state, the
//! decisions behind each command, and the layout tree the window is split by.

pub mod ai;
pub mod badges;
pub mod clock;
pub mod layout;
pub mod multisets;
pub mod popup;
pub mod script;
pub mod seqs;
pub mod services;
pub mod state;
pub mod text;
pub mod urls;
pub mod webviews;
