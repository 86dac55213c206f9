//! Silence-gated audio capture: the decisions of a capture session, the
//! silence and grace-period evaluator, downmixing, silence trimming and the
//! conversion of recorded samples to 16-bit PCM, plus the request and
//! response logic of the transcription client.
//!
//! Samples are held as fixed-point integers (see `sample`), and time as
//! microseconds on a monotonic clock supplied by the caller.

pub mod sample;
pub mod args;
pub mod audio;
pub mod control;
pub mod device;
pub mod mix;
pub mod openai;
pub mod trim;
