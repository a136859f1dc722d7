//! Navigation state, key bindings and save-file naming of a terminal kanban board.

pub mod actions;
pub mod inputs;
pub mod saves;
pub mod seqs;
pub mod state;
pub mod text;
