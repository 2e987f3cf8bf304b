//! Control logic of a small polyphonic sampler: voice allocation in a
//! round-robin scheme, the per-voice status that follows the amplitude
//! envelope and the sample player, channel selection and the splitting of
//! interleaved audio into channels.

pub mod background_task;
pub mod sampler;
