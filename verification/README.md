# rawg

A terminal connection manager for AmneziaWG tunnels, with its logic verified
in Verus.

- `src/` is the verified library: the file browser that picks configuration
  files (`file_explorer`), the rules for stored configurations and for driving
  `awg-quick` (`vpn_manager`), and the key-driven state machine of the
  application (`app`), each with its laws (`explorer_laws`, `app_laws`).
  Calls into `std::path` and `ratatui` go through small trusted wrappers
  (`paths`, `list_state`, `layout`).
- `app/` is the terminal program: it reads directories and files, runs
  `awg-quick` through `sudo` or `doas` and `ip link`, keeps the sudo password in a
  `secrecy::SecretString`, draws with `ratatui` and feeds key presses to the
  state machine, performing the work each step asks for.
- `tests/` exercises the library on concrete values.
