# novel_sources

Verified logic of four novel sources for a reader app: Royal Road, Novel
Fire, Novels Online, and NovelBuddy (a site built on the MadTheme template).

- `src/` is the library, verified with Verus: the address of every page a
  source reads, the query of every search, and how the text picked from a
  page becomes novels, chapters and content blocks (`text`, `content`, `json`,
  `model`, one module per source, `madtheme` for the template).
- `app/` is the source as the host loads it: it fetches pages, picks their
  text with the host's HTML selectors, calls the library, and converts its
  values to the host's types (chapter numbers and dates are floats and host
  calls, so they are computed there from what the library says to read).
- `tests/` runs the library on concrete pages' text.
