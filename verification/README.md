# airplay_rs

An AirPlay screen-mirroring receiver. The library under `src/` is written in
Verus and proved against its contracts; `app/` is the program around it
(window, event loop, network services, GStreamer and Core Media calls).

Library modules:

- `parameter_sets`: avcC / hvcC decoder configuration records.
- `codec`: codecs, the `hvcC` MP4 box search and the stream description.
- `capture`: the video capture file format (writing and reading records).
- `backend`, `options`: backend selection and the run options read from the
  environment and the command line.
- `pipeline`: pipeline choice, GStreamer description and element checks,
  packets to commands, and what the video thread does with a command.
- `core_media`: media times, sample timing and status checks.
- `receiver`: advertised AirPlay features and video format.
- `events`: what the event loop does for each event.
- `bytes`, `text`, `error`: byte and text helpers, the error type.
