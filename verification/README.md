# remvora_agent

The Remvora device agent: an authenticated, capability-gated remote terminal and
desktop agent for self-hosted Remvora servers.

- `src/` is the verified library. The agent's rules are functions with Verus
  contracts: the control-connection state machine (one session at a time, local
  opt-ins, reboot commands honoured once), the file-transfer rules (names, quotas,
  offsets, digest-checked publication), desktop input bookkeeping (held keys and
  buttons, clipboard limits, display selection), message-size limits, WSS relay
  framing, bilinear frame scaling, signed-release verification, identity handling and
  reconnect backoff. The laws the library promises are public proof functions named
  `law_*`.
- `app/` is the program around it: command line, HTTPS/WSS and WebRTC plumbing, PTY,
  screen capture, H.264/Opus encoding, native input and file-system work.
- `tests/` runs the library on concrete values.

Calls into `base64`, `sha2`, `p256`, `semver`, `uuid` and `chrono` are made from the
library through small trusted wrappers whose contracts name what those crates return.
