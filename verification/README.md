# recording

Screen recording over the Chrome DevTools protocol, as a library whose decisions
are verified with Verus.

A recording attaches a session of its own to the page, spools the frames of a
screencast without loss, and encodes them with ffmpeg after the take has ended.
The library says what each step is, from the rate a request may ask for to the
frame that each slot of the video shows; its caller performs the steps and hands
back what came of them. The number of slots of a video and the time of each slot
are handed in: `app/` computes both in floating point.

- `src/state.rs`: the recorder's state, starting and stopping, the rates
- `src/session.rs`: the recorder's own session and the slot it is shared in
- `src/attach.rs`: attaching that session
- `src/command.rs`, `src/json.rs`: the DevTools commands and their JSON values
- `src/collect.rs`: what each event asks for, and the frames that were spooled
- `src/schedule.rs`: which frame is on screen at a time
- `src/encode.rs`, `src/ffmpeg.rs`: feeding the encoder, and how it is called
- `src/task.rs`: the order of a whole recording
- `src/text.rs`: numbers and texts
- `app/`: the recorder on a DevTools connection, in ordinary Rust

Calls into `base64`, `serde_json` and the standard library that the verifier
cannot read stand behind small functions whose contracts are believed; each names
the function it calls.
