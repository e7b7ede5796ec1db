//! Verified core of a speech-to-text dictation daemon: the recording state
//! machine, configuration loading and validation, the control protocol, audio
//! framing and segmentation, the speech-to-text providers' requests and reply
//! handling, transcript output, media player pausing and debug recordings.

pub mod text;
pub mod clock;

pub mod config;
pub mod config_laws;
pub mod protocol;
pub mod state;
pub mod state_laws;

pub mod audio;
pub mod wav;
pub mod pipeline;

pub mod provider;
pub mod openrouter;
pub mod whisper_local;
pub mod whisper_server;
pub mod openai_compat;

pub mod injection;
pub mod ipc;
pub mod control;
pub mod playback;
pub mod debug_wav;
