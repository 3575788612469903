pub mod audio;
pub mod calendar;
pub mod cli;
pub mod permissions;
pub mod screen;
pub mod stt;
pub mod text;
