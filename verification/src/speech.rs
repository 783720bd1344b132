pub mod audio;
pub mod audio_format;
pub mod input;
