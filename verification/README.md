# telemt-admin

A Telegram bot that administers the telemt MTProxy: registration by invite
token, user limits, service control and health notifications.

- `src/` is the verified library. Every module is checked by Verus: the
  callback payload and wizard-state codecs (with round-trip laws), the
  command and wizard parsers, the screen and keyboard texts, the
  `systemctl`/`journalctl` output readers, the monitoring state machine, the
  invite-token and registration rules, and the settings rules.
- `tests/` runs the library on concrete values.
- `app/` is the program around it: command-line arguments, reading the TOML
  settings, running `systemctl`, and a Telegram dispatcher that answers
  `/help` and `/service <action>`. There is no database layer: the bot's
  SQLite storage, and with it the other commands, the menus, the buttons and
  the background monitor, are not part of this program. The library holds
  their decisions and texts.

`Cargo.toml` pins `takecell` below 0.1.2: it is a dependency of
`teloxide-core`, and its newer release needs a newer compiler than the one this
project is built with. `reqwest`, `serde_json` and `thiserror` are listed but
not used yet: the telemt API client they serve is not part of this program.
