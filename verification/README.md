# selah

A terminal Bible reader: four panels (books, chapters, verses, scripture),
search, bookmarks, highlights, notes, themes, and translations from the
YouVersion Platform API next to the bundled KJV.

The library in `src/` is verified with Verus:

- `bible/` — the book catalogue, the translation list, queries on the
  bundled database, and how a chapter of a translation is obtained
  (database, cache, or a background fetch to start).
- `api/` — the API cache (freshness, eviction, rows to records) and the
  YouVersion request URLs, error classification and passage parser.
- `config/` — bookmarks, highlights, notes, providers and the session.
- `ui/` — the reader's screen state: panels and their selections, the
  overlays, the note editor and its soft-wrapped layout, the splash
  screen, the help menu and the themes.
- `reader.rs` — the application: what every key press and mouse event does,
  returning the effects (files to save, fetches to start) for the caller.
- `text.rs` — character-level helpers shared by the rest.

`app/` is the program around it: command-line parsing, the terminal event
loop and drawing, JSON files, HTTP requests and background threads. The
bundled database is read at start from `data/kjv.sqlite` (or the path in
`SELAH_KJV_DB`).
