# utsushot

Supersampled screenshots on Wayland: the capture tool re-renders its target at N
times the pixel density on a phantom output (or a temporarily enlarged mode) and
captures that, instead of enlarging pixels that were already rasterized.

## Layout

- `src/` is the verified library. Every function carries a Verus contract:
  - `detect`: which compositor is running, from the session's variables;
  - `selection`: choosing the backend for a run, and the backend listing;
  - `backend`: output identifiers, the planned backends' errors, and
    `CleanupOnce`, which hands a restore out exactly once;
  - `live`: display modes, reading them from the compositor's JSON, choosing
    the best one, PNG header parsing, and the live-capture state machine;
  - `window`: finding a window in the compositor's JSON and the commands that
    float it, pin its size and put it back;
  - `json`: the JSON document model, parsing replies with serde_json, and
    the lookups;
  - `text`: decimal rendering, trimming, splitting and ASCII case folding;
  - `error`, `capture`, `cli`: errors with their exit codes and messages,
    dependency checks, default file names and log levels.
- `app/` is the program around it: flag parsing, processes, files, sleeping,
  logging, and the floating-point scale arithmetic.
- `tests/` runs the library on concrete values.
