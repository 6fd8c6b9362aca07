pub mod bonus_tracks;
pub mod cli;
pub mod clock;
pub mod dev;
pub mod game;
pub mod git;
pub mod history;
pub mod hook;
pub mod init;
pub mod pack;
pub mod party;
pub mod text;
