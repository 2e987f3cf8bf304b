# micro_sampler

MicroSampler is a small polyphonic sampler plugin. This crate holds its
control logic, verified with Verus:

- `src/sampler/voices/` – round-robin voice allocation (`VoiceManager`), the
  control state of a voice (`Voice`, `VoiceStatus`), MIDI notes (`Note`) and
  what a MIDI event does to the allocation and when it is due
  (`note_event_action`, `event_is_due`).
  The abstract state `VoiceManagerView` and its spec functions say what every
  operation does; the proof functions beside them state the allocator's laws.
- `src/sampler/decoded_audio.rs` – the choice of the played channel and the
  "+"/"-" channel steps.
- `src/background_task/` – which stored path a load reads, what follows a
  load that succeeded or failed, and (`load_file.rs`) splitting interleaved
  samples over the channels.
- `src/sampler/{adsr,sample_player,params}.rs` – the envelope stages and
  their transitions, the sample-player statuses and their transitions, and
  the polyphony limit.

`app/` is the plugin around it: nih-plug's plugin interface, the audio loop,
the envelopes and sample players (floating point), the egui editor and the
loading of files with symphonia.
