# reminder

A desktop app for triaging GitHub notifications of several accounts: it lists review
requests, mentions and other notifications, marks threads as read, and runs a review
command on pull requests whose repository has a local checkout.

The library under `src/` holds the logic and is verified with Verus. The app under `app/`
holds the windows, files, processes and network around it.

## Layout

- `src/text.rs`, `src/pattern.rs`, `src/decimal.rs`, `src/text_map.rs`, `src/time.rs`: text,
  patterns in text, numbers in text, a map keyed by text, points in time.
- `src/domain.rs`: accounts, notifications and inboxes.
- `src/github.rs`: which requests a sync makes, and what their replies mean.
- `src/storage.rs`: what is kept of accounts and checkouts from run to run.
- `src/app.rs` and `src/app/`: the state of the app, its forms, its accounts, and reviews with
  their output.
- `src/app/ui/`: what the windows show, and what clicks in them do.
- The modules that end in `_laws` state what holds across functions: for instance that what
  is kept is restored, or that output shows the same however it is cut into chunks.

## What is kept

Tokens and the paths of checkouts are kept in plain text in `~/.reminder/accounts.json`.

## What is believed without proof

A few functions of `std`, `chrono` and `vt100` are called behind declarations in `src/text.rs`,
`src/time.rs`, `src/app/scheduler.rs` and `src/app/terminal.rs`. Each says in its comment what
is taken for granted of the function that it stands for.
