# native_overlay

The decisions behind the native video overlay of a media player, written in
Verus and proved against their contracts: which buttons, rows, labels,
colours and commands each overlay widget produces for a frame, given the
state it is drawn from and what the user did in that frame.

Layout:

- `src/` — the verified library.
  - `text.rs`, `labels.rs`, `metadata.rs`: character-level text helpers,
    shortcut labels, truncation and metadata text clean-up.
  - `tags.rs`, `picker.rs`, `tag_panel.rs`: tag choices, the tag picker's
    sorting and filtering, and the tag panel's per-frame state.
  - `jump.rs`, `bookmarks.rs`: the jump list (chapters, bookmarks, pins),
    the marker now playing, title editing and bulk bookmark pasting.
  - `topbar.rs`, `tiles.rs`, `controls.rs`, `hud.rs`, `ring.rs`,
    `info_panel.rs`, `help.rs`, `vst3.rs`, `adjust.rs`, `perf.rs`,
    `status.rs`, `scroll.rs`: the individual widgets.
  - `commands.rs`, `color.rs`: the commands the overlay emits and the
    colours it names.
- `tests/` — tests on concrete values.
- `app/` — the floating-point helpers (sizes in points, angles, timing
  statistics, number formatting) that sit beside the library.

The proved laws are public proof functions whose names start with
`lemma_`; each states its property in its doc comment.
