# lui_core

Core types of the lui HTML/CSS engine, written in Verus: every function in
`src/` carries a contract that Verus proves.

- `src/css_property`, `src/css_pseudo`, `src/css_at_rule`, `src/unit.rs`: the
  CSS keyword tables. Each keyword maps to its name and back; the lookup by
  name is a binary search over a table whose order is proved.
- `src/shorthand.rs`: which longhands a shorthand property sets (as each
  property's definition lists them), and how the one-to-four values of a box
  shorthand are spread over them.
- `src/node`: element attributes (id, class list, plain / `data-` / `aria-`
  maps) with their read, write, remove, start-tag text and order-free hash;
  the class list; tag and key/value hashes; the event-listener registry and
  the dispatch of an event to them, the passive-listener rule included.
- `src/events`: the event initialisers without floating-point fields, the
  shared `EventInit` with its flags, and the event interface names.
- `src/text_selection.rs`: cursor order and selection normalisation.
- `app/`: the parts that carry floating-point values (geometry, scrollbar and
  selection styling, the `DocumentEvent` enum and its float-carrying
  initialisers), the window-surface trait, and the handler table that the
  library's dispatch calls into.

The element tree (`HtmlNode`, `HtmlDocument`), selector lists, media queries
and CSS values are not here: they rest on types (`HtmlElement`,
`CssCombinator`, `CssFunction`) whose definitions this code base does not
include.

`tests/` exercises the library from outside.
