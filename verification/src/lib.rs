//! Per-speaker audio demultiplexing and transcription relay for a group
//! voice session: frame resampling, the speaker registry, the tick
//! dispatcher, the per-speaker pipeline state machine, transcript
//! accumulation, and the text-side rules around storage and prompting.

pub mod resample;
pub mod registry;
pub mod dispatch;
pub mod guarantees;
pub mod pipeline;
pub mod storage;
pub mod whisper;
pub mod kobold;
pub mod discord;
