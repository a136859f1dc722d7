//! The names of the files that boards and themes are saved under.

pub mod calendar;
pub mod digits;
pub mod export_files;
pub mod save_files;
pub mod theme_files;

pub use calendar::SaveDate;
pub use save_files::SaveStamp;
