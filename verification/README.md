# xarph-sdk

The library behind the X4 shell, a Wayland desktop shell on Hyprland: its
configuration, the desktop's objects and registries, the shell daemon's
workspace tracking, the lock screen's state, the readers of `/proc`,
`systemctl`, `nmcli` and `ip` output, the clock, the context menus and the
session installer's plans. Every function of the library is verified with
Verus against its `requires`/`ensures` contract.

## Layout

- `src/` — the verified library.
  - `text.rs`: characters, numbers, splitting, ordering and paths, each with
    the meaning the standard library gives the operation of the same name.
  - `clock.rs`, `context_menu.rs`, `position.rs`, `desktop_object.rs`,
    `desktop_registry.rs`, `app_registry.rs`, `wallpaper_engine.rs`,
    `file_browser.rs`: the desktop.
  - `config.rs`, `settings_model.rs`: the configuration, its defaults, the
    assembly of a configuration directory, themes.
  - `ipc_types.rs`, `daemon.rs`, `json.rs`: compositor IPC arguments and
    events, the workspace list the daemon keeps.
  - `process_collector.rs`, `network_monitor.rs`, `service_manager.rs`,
    `notification_service.rs`: the system screens' readers.
  - `lock_screen.rs`: what each key does to the lock screen.
  - `manager/`: the session manager's paths, files and command plans.
- `tests/` — tests of the library on concrete values.
- `app/` — the input and output around the library: files, commands, the
  session bus, the daemon's event loop and the manager's command line.

Floating-point values (font sizes, positions, scales) are carried by the
library as their IEEE-754 bit patterns; what is computed with them is done in
`app/`.
