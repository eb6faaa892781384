# aicore

The core of AICore, a background service that gives desktop applications,
editor extensions and command-line tools one local interface to ChatGPT over
a Unix socket, speaking a versioned, newline-delimited JSON protocol.

`src/` is the library, verified with Verus:

- `json`, `schema`: the JSON value model and typed reading of records from it.
- `protocol`: request and response frames and error codes.
- `router`: the request router as a step function from routing state and the
  outcome of the last piece of work to the next state and piece of work.
- `sse`, `client`: the ChatGPT event-stream parser (text deltas), the stream
  decoder that cuts the answer into lines, and the conversation requests.
- `pow`: the sentinel proof-of-work solver.
- `crypto`, `store`, `paths`: credential encryption, the sealed session file,
  key selection and file locations.
- `files`: path validation, the upload limits (allowed directories and a
  size bound), the file-upload exchange as a step function, and the sandbox
  and image downloads.
- `auth_retry`, `desktop`: session refresh, and the desktop application's
  decisions (addresses, the web-view bridge, login/logout/startup steps).
- `storage`: session records and the database handle.

`app/` holds what performs input and output: the socket daemon and the
command-line client, the SQLite database, the HTTP exchanges and the files on
disk. It drives the library's step functions and converts between the
library's types and their JSON wire forms.

The desktop shell (the Tauri window, its system tray and the web view that
captures the login) is not part of this crate: it needs a GUI toolkit that is
not available here. Its decisions (which addresses the web view may open, how
a captured session is recorded, how socket commands are answered, the
login/logout/startup steps) are in `desktop` and verified like the rest.
