# ollama_turbo

The logic of a small web backend that relays prompts to an Ollama server and
post-processes replies with vector quantizers, written in Verus with its
contracts proved.

- `src/json.rs` — JSON documents as plain values; parsing and writing go
  through serde_json.
- `src/text.rs` — lossy UTF-8 decoding, splitting into lines and words.
- `src/ollama.rs` — endpoints, request defaults, and what the server's
  replies mean: generated text, streamed lines, model lists, errors.
- `src/handlers.rs` — model choice, HTTP replies, and the WebSocket streaming
  protocol as a state machine.
- `src/turbo.rs` — the quantizer-backed processor: building the quantizers,
  the layout of a text's feature vector, and turning decoded levels back
  into printable text.
- `app/` — the server itself: axum routes, reqwest calls, the socket loop,
  and the floating-point vector work, all driven by the library.
