# athena_voice

The logic of the Athena voice assistant as a Verus-verified library: the
ESP32 satellite's session protocol and audio decisions, the voice server's
frame codec and voice detection, the STT and TTS workers' message
handling, the skill SDK, and the bundled skills (Jeedom, weather, timer,
home, smoke and test skills). Every function in `src/` carries a
`requires`/`ensures` contract that Verus proves; calls into outside crates
(`serde_json`, `base64`, `strsim`, `ini`, `uuid`, `dashmap`, the clock) go
through small trusted wrappers whose contracts say what the crate does.

## Layout

- `src/text.rs`, `src/json.rs`: string helpers over `Seq<char>`, and JSON
  quoting and field reads.
- `src/satellite/`: session state machine (`session.rs`, with its laws),
  silence tracker and level meter (`mic.rs`), playback queue
  (`speaker.rs`), MQTT setup (`net.rs`), config checks (`config.rs`).
- `src/server/`: socket frame codec, voice segmenting, metrics, config.
- `src/workers/`: STT session buffers and transcript cleanup; TTS request
  reading, chunking and response messages.
- `src/sdk/`: the skill API. `HostCtx` is the host build of the context
  (no guest runtime: no config, nothing stored, HTTP refused); the
  functions that read what a guest host returns (store reads, publish
  codes, schedule replies, config bytes) are verified on their own.
- `src/skills/`: each skill's rules and answers. What a skill hands to the
  host (commands, URLs, topics, payloads, keys) and what it answers for
  each host reply are verified functions that take those replies as
  arguments.
- `src/storage/tmp.rs`: the in-memory tmp store on `DashMap`.
- `app/`: the processes (voice server, STT and TTS workers over MQTT), the
  skills' plugin entry points and the serde shapes.
- `tests/`: the tests, run against the compiled library.
