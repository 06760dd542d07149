# pico_potion

A small self-hosted shared-notes web application (Markdown pages with a
title, a sidebar of pages, autosave), built as a verified library and a thin
server around it.

- `src/` is the library, verified with Verus:
  - `text.rs`: character classes (Unicode white space, control characters)
    and string primitives;
  - `numbers.rs`: reading decimal numbers as `str::parse` does for unsigned
    types, and writing them;
  - `escape.rs`: escaping for HTML and for JavaScript string literals, with
    the laws that escaped text cannot open markup or end a script, reads
    back as the text, and escapes piece by piece;
  - `render.rs` and `template.rs`: the sidebar, the page index and the
    editor page, with the laws that the index is a JSON array of the pages
    and that no value can end the page's scripts or its editor;
  - `cli.rs`: what the server does with its command line (help, refused
    options, or serving on the fixed port 8080), and reading a port number;
  - `memory.rs`: the resident set size from `/proc/self/status`;
  - `pages.rs`: redirects, stored titles, deletes, seeding and page ids.
- `app/main.rs` is the server: the SQLite database (rusqlite), the HTTP
  routes (axum on tokio), the memory figure in megabytes, and the Markdown
  renderer script read from `assets/marked.umd.min.js` (beside the working
  directory or the executable) at start-up; without it the preview is empty.
- `tests/` runs the library on concrete values.
