# rustops

Desktop front-end for a language model served locally by Ollama.

- `src/` — the verified library (Verus): conversation bookkeeping and the
  streamed reply (`chat`), JSON values and the two places where JSON text is
  read or written (`json`), the start-up sequence and the loading screen
  (`startup`), the conversations and which one is active (`sessoes`), the preparation of the `rustops` model (`model`), the release
  check (`update`), the failure messages (`errors`), the decoding of the window icon (`icone`), screen selection
  (`tela`), and text primitives (`text`).
- `app/` — the window (eframe/egui), threads, processes, HTTP and files; it
  performs the work that the library's state machines ask for and feeds back
  what happened, and keeps the conversations on disk.
- `tests/` — tests of the library on concrete values.
