# cloud_transcription

Clients for two cloud speech-to-text services, OpenRouter (chat completions
with an audio part) and Mistral's Voxtral (a realtime WebSocket protocol).

`src/` is the verified library, written in Verus:

- `pcm` – 16-bit samples as little-endian bytes and as WAV files (`hound`).
- `encoding` – base64 text of audio (`base64`).
- `json` – JSON string literals and reading strings out of JSON replies
  (`serde_json`).
- `text` – Unicode white space and trimming.
- `credentials`, `error` – bearer headers; failures and their messages.
- `voxtral` – socket address, upload messages, decoding server events.
- `session` – opening a session and gathering the transcript.
- `streaming` – the decisions of a session that streams audio.
- `openrouter` – the request body and the reading of the reply.

`app/` runs the network side (reqwest, tokio, tokio-tungstenite): it reads
and writes the sockets, keeps the timers, converts floating-point samples,
and hands each event to the library.
