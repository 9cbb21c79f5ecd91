# ClickDown

A terminal client for ClickUp whose core is verified with Verus.

- `src/` is the library. Every function in it carries a `requires`/`ensures`
  contract that Verus proves: the data models and their rules (task grouping
  and sorting, inbox activity merging, session restore), the request
  builders (endpoint URLs, query strings), the command-line parser, the text
  the headless commands print, and the interface's state machines (what a key
  or an API answer does to navigation, forms, comments, pickers and the task
  list). Laws that relate several operations are stated as `pub proof fn`s
  (for example entering a level and going back, a status change and its
  rollback, opening and closing a comment thread).
- `app/` is the program around it: argument handling, the HTTP client,
  the token file and SQLite cache, the JSON shapes of the API, the terminal
  event loop and the drawing. It asks the library what to do and performs it.
- `tests/` exercises the library on concrete values.

Run `clickdown` for the interface, or `clickdown debug <operation>` for the
headless operations (`clickdown debug --help` lists them).
