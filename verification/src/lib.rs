pub mod ai;
pub mod audio;
pub mod commands;
pub mod device_id;
pub mod ffmpeg;
pub mod license;
pub mod meetings;
pub mod parakeet;
pub mod recognition;
pub mod recording;
pub mod remote;
pub mod sorting;
pub mod startup;
pub mod text;
pub mod tray;
