pub mod key_normalizer;
pub mod remote;
pub mod audio;
pub mod model;
pub mod history;
pub mod logs;
pub mod reset;
pub mod stt;
pub mod text;
