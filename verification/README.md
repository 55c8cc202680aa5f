# wsgw_cdp

The verified core of a desktop automation client that drives a local Chrome
through the Chrome DevTools Protocol (CDP).

- `src/` — the library, verified with Verus:
  - `text`: white space, trimming, first line, words, decimal numbers
    (as `str::trim`, `str::lines`, `str::split_whitespace` and `str::parse`
    define them), and the lossy UTF-8 decoding of a response;
  - `json`: the members of a JSON document, read through `serde_json`;
  - `cdp_session`: the `/json/version` request and response, the
    DevTools information, the retry run, the endpoint cache and the
    WebSocket address check;
  - `env_bootstrap`: the `.env` choice, the default debug port, and the
    checks of the CDP settings;
  - `commands`: the configuration summary, the choice of the Midscene
    script, and the judgement of the Node child's run.
- `tests/` — tests on concrete values.
- `app/` — the Tauri application around the library: environment, files,
  sockets, processes, threads, serde derives and the commands.
