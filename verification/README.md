# jinn-domain

The domain logic of the jinn terminal client as a Verus library: every
function in `src/` carries a contract that Verus proves.

- `handler` — the intent handler: route table first, then the
  confirmation prompts, then the built-in arms chosen by intent and focus
  scope. Its contract (`handle_effect`) is assembled from the effect of each
  arm, and the laws below it (routed intents, inert dynamic intents, prompt
  dismissal, disabled input, status hints, the ignore sweep, the tab cycle)
  are proved from it, together with the announcement of a changed (and
  only a changed) active session.
- `chat_input`, `selection`, `global`, `text_inputs`, `navigation`,
  `discord_thread` — the arms; each states its effect as an open spec
  function (`*_effect`) over the state before and after.
- `archive_tree` — the sidebar's tree-action confirmation prompt, given
  the subtree's validation.
- `session`, `app_state`, `line_input`, `intent`, `intent_result` — the state
  and message model.
- `dashboard`, `dashboard_actor`, `dashboard_nav`, `canvas`,
  `discord_status`, `dashboard_status`, `browser`, `slices`, `key_routes` —
  the actor dashboard, the events folded into it and its keybind rows.
- `views` — the text, cursor positions, validation footer and endpoint
  footer the renderers draw.

`tests/` runs the library on concrete values. `app/` holds what Verus does
not see: the serde forms of the bus messages and the ratatui renderers.

Trusted items: `read_clock_ns` (the system clock through `jiff`, which may
fail to give a timestamp), `grapheme_count` (`unicode-segmentation`) and
`char_to_string` (`ToString` for `char`).
