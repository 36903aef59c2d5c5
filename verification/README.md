# animus-provider-gemini

The logic of the Animus provider plugin for the Google Gemini CLI, verified
with Verus.

- `src/` is the library: configuration (`config`), session requests
  (`request`), the fold of a session's events into notifications and a
  response (`events`, with the laws of whole sessions in `laws`), health
  (`health`) and the plugin's self-description (`manifest`). `values` declares
  the outside values that are carried through unchanged.
- `app/` is the plugin process around it: reading the environment, the
  asynchronous provider backend that talks to the session backend, and the
  conversions to and from the Animus protocol types.
- `tests/` runs the library on concrete values.
