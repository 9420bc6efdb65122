# DSH Desktop, verified core

A desktop shell for the DeepSeek harness (DSH): it keeps the API key in the
platform keychain, prepares the bundled web UI, starts the harness on the
loopback interface and shows its workbench in a native web view.

`src/` is the library, verified with Verus. It holds the decisions the
shell takes:

- `validation`: the shape of API keys and model names;
- `redact`, `text`: masking the key in captured output, and the text
  operations (trimming, tokens, replacement) it rests on, with the law that
  a masked text never shows the key, for a key that is not empty and holds
  no `*` (the mask's own character);
- `http`: the readiness probe of the local service;
- `script`: the scripts handed to the web view;
- `ipc`: what a page message asks of the shell;
- `startup`: starting the harness: the order of its steps (with the law
  that the sequence only moves forward), the readiness wait (two minutes, a
  probe every quarter second) and the outcomes of preparing pnpm;
- `session`: the state machine that decides, for each event, the shell's
  next state and the actions it performs, with its laws;
- `settings`, `runtime`, `frontend`, `process`, `paths`, `profile`,
  `keychain`, `icon`: configuration choices, command lines and
  environments, the bundled front end, ports, the profile manifest (with
  the law that normalizing a normalized manifest changes nothing), the
  keychain and the window icon.

`app/` is the program around it: window, web view, files, environment,
processes and threads. It performs what the library decides and reports
back what happened.
