# chat_tui

A terminal chat client for hosted language models, with its state and
decisions verified by Verus.

- `src/` is the verified library: the prompt being typed
  (`prompt_handler`), the saved conversation and its scrolling
  (`conversation_handler`), the error banner (`error_handler`), the event
  queue (`event_handler`), the model list and the request/reply handling of
  the chat service (`network_handler`), the screen layout and the
  model-selection popup (`ui_handler`), the state machine that reacts to keys,
  events and replies (`application`), whitespace handling (`text`), and the
  properties that span several operations (`laws`).
- `app/` is the terminal program around it: it reads keys with crossterm,
  draws with ratatui, sends requests with reqwest and hands the outcomes back
  to the library.
- `tests/` exercises the library on concrete values.
