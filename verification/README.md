# puma_terminal

The terminal chrome of the Puma text browser as a verified library: everything between a
key press or mouse event and the text the terminal shows, with each function's behaviour
stated as a Verus contract and proved.

- `src/` is the library. It covers scrolling and the page viewport, the slash-command
  registry and its ranked palette, key mapping and the two-press quit and refresh
  confirmations, the command bar, title, status and hints bars, the history, cookie and
  settings popups, the settings panel model and its text-field drafts, mouse selection,
  link focus and link highlighting, fragment anchors and going back over an anchor jump,
  the clipboard (native, with an OSC 52 fallback), what each frame's popups and chrome
  rows show, and the decisions the event loop makes for each key and submitted command.
- `tests/` exercises the library from outside.
- `app/` is the terminal plumbing that cannot be verified: crossterm events turned into the
  library's event values, raw mode and the alternate screen, a millisecond clock and the
  Unix clock the history labels read, the write of an OSC 52 sequence to the terminal, and
  the error type with its `Display` impl.

The navigation core (fetching, parsing, layout, storage) is not part of this crate. Where
the library needs something from it, a function takes the value as an argument (the page's
links and anchors, the stored cookie records, the result of a save) or hands the work back
to the caller as a plan.

## The command registry

The slash-command registry holds six commands, in this order: `/open <url>`, `/reload`,
`/back`, `/help`, `/quit` and `/settings` (alias `/config`). `/search`, `/history` and
`/cookies` are not registered: typed, they are answered with `unknown command`, and the
palette never lists them. The plans and popups for searching, the history list and the
cookie jar are still in the library (`plan_cookies`, `parse_history_request`, the history
and cookie popups), ready for a caller that reaches them another way; the command
dispatcher keeps arms for those three kinds that no registered token leads to.

## The clipboard

A copy tries the native clipboard first (through arboard, unless OSC 52 is forced). When
that is skipped or fails, `copy_to_clipboard` hands back the OSC 52 sequence of the text,
proved to be `ESC ] 52 ; c ; <base64 of the UTF-8 bytes> BEL`, and the caller writes it to
the terminal; `osc52_outcome` turns the terminal's answer into the outcome. Text over
100 000 bytes is never sent that way.
