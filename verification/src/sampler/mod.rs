pub mod adsr;
pub mod decoded_audio;
pub mod params;
pub mod sample_player;
pub mod voices;
