# campus_login

The verified core of a campus-network login client (desktop and phone),
written in Verus. The functions in `src/` carry contracts that Verus
proves (those that read the clock say what holds whatever it reads); the few calls into outside crates (`regex`, `url`, `urlencoding`,
`serde_json`, `sha2`) and into the standard library that Verus has no
specification for sit behind small trusted wrappers whose contracts are
stated in their doc comments.

Layout:

- `src/text.rs`, `src/net.rs`, `src/render.rs`, `src/pattern.rs`,
  `src/clock.rs` — string helpers with their specifications, and the
  wrappers around std, `url` and `regex`.
- `src/config/` — the desktop configuration: model, strict and lenient
  validation, night-time operator switching, outbound switching, daily
  schedules, and the password fields on save, import and export.
- `src/auth/` — portal page analysis, login/logout request URLs and reply
  interpretation, the authentication-failure tracker, login routing.
- `src/desktop/` — accounts, lightweight mode, web-view recovery and
  heartbeat, auto-login and reconnects, automatic exit, tray menu, update
  download checks and installer choice, outside links, the network flags
  after a logout.
- `src/mobile/` — the phone: settings, accounts, identity check,
  self-service request checks, the background monitor's decisions, quality
  back-off, update checks, history, campus detection, device tier.
- `src/helper.rs` — the elevated helper's command line and result file name.
- `src/checksum.rs` — SHA-256 of a download, fed chunk by chunk.
- `app/` — the helper program, the file handling (configuration,
  accounts, history, downloads, import) and the system calls (opening links,
  starting installers) around the library.
- `tests/` — tests of the library's public functions.

Laws that span functions are public proof functions named `law_*` next to
the functions they are about.
