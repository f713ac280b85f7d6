# Galaxy Book Setup

Installation and diagnostics helper for Samsung Galaxy Book laptops on Fedora:
it reads the state of the camera driver, the browser webcam bridge, the
internal speakers, the fingerprint stack, the GPU, the Secure Boot key and the
GNOME desktop integrations, recommends the next step, and runs the quick
actions that fix what it found.

## Layout

- `src/` — the verified library (Verus):
  - `text.rs`: strings as character sequences (trim, split, lines, search);
  - `model.rs`: health levels, check results, the snapshot, package lists;
  - `parse.rs`: readers of `mokutil`, `modinfo`, `journalctl`, `cam -l`,
    `authselect`, `fprintd-list`, `udevadm`, `wpctl` and `gsettings` output;
  - `checks.rs`, `devices.rs`, `snapshot.rs`: the diagnostics and the whole
    snapshot, computed from what the system reported (`SystemProbes`);
  - `recommend.rs`: the next-step recommendation;
  - `commands.rs`: the shell scripts behind the quick actions;
  - `diagnostics.rs`: the action catalog, alert counts, summaries and the
    suggested actions of each diagnostic;
  - `actions.rs`, `session.rs`: what each quick action runs, when a command
    starts, how its end is reported, notifications, launcher badge, buttons;
  - `smoke.rs`: the `--smoke-test` report;
  - `laws.rs`: properties of the whole (deduplication, Secure Boot steps,
    alert counts, recommendation priority, failure output).
- `app/` — the GTK program: reads the system, runs commands, shows the window.
- `tests/` — tests of the library on concrete values.
