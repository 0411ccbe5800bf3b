# sidebar

The decision logic of the tab organizer's sidebar page, verified with Verus.

- `src/session.rs` — the message session with the background page: which
  command each message gives, and the laws over whole message sequences.
- `src/pointer.rs` — the commands that a pointer event on a tab row gives.
- `src/press.rs` — the hover-and-hold state of pressable elements.
- `src/loading.rs` — the loading overlay, with its laws.
- `src/appearance.rs`, `src/decimal.rs` — texts and styles derived from
  plain values (URL bar visibility, group labels, the dragged-tab stack).
- `src/location.rs` — the sidebar's id from the page's query.
- `app/lib.rs` — the browser side: page setup, the overlay, the message
  loop, and DOM event conversion; the sidebar state and its rendering come
  from the host.
