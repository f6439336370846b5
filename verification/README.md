# amos_companion

The AMOS Companion connects Android devices to AMOS: it signs the user in,
registers and runs the device-agent, installs the mirroring tools (Node.js,
scrcpy, ffmpeg, ws-scrcpy, adb), and controls and mirrors devices over adb.

## Layout

- `src/` — the verified library. Every function carries a Verus contract.
  - `text.rs` — character-sequence helpers (whitespace, lines, words,
    replacement, decimal rendering and parsing) with their specifications.
  - `video_stream.rs` — H.264 Annex-B NAL unit scanning and stream buffering.
  - `scrcpy_server.rs` — the scrcpy-server wire format, the device meta, the
    frame reader's state machine and the server set-up commands.
  - `device_controller.rs` — parsing of `adb devices -l` and device details,
    input commands, screenshot encoding.
  - `dependency_manager.rs` — where dependencies live, where they come from,
    and the decisions of installing them.
  - `config_store.rs` — the settings and their laws (read after write,
    sign-out, sign-in).
  - `agent_manager.rs` — the device-agent's lifecycle and start-up decisions.
  - `device_agent_installer.rs` — the install/update flow as a state machine.
  - `scrcpy.rs`, `ws_scrcpy_server.rs`, `adb.rs`, `install_mode.rs`,
    `workspace_manager.rs`, `commands.rs` — the remaining decisions.
- `tests/` — tests run against the compiled library.
- `app/` — the process, file, network and logging work around the library,
  and the serde records exchanged with the frontend and the API.
