# story_catalog

The rules of a web service that keeps stories, their chapters, authors,
categories and rankings in a document store, written in Verus and proved
against their contracts.

- `src/` is the verified library: reading query strings (`query`), decimal
  numbers (`text`), paging (`paging`), the plain model of stored documents,
  filters and updates (`document`), the records (`models`), and per
  collection the filters sent to the store, the documents stored, the records
  read back and the answers given (`repositories`). Creating a story is a
  sequence of store lookups; `repositories::story_creation` holds its
  decisions as a step function from what the store answered to what to do
  next. `outside` holds the calls into `regex`, `slugify` and `uuid`.
- `app/` is the HTTP server (actix-web) and the store access (mongodb): it
  runs the requests, converts between the driver's documents and the
  library's, and hands the library's answers back as JSON.
- `tests/` exercises the library on concrete values.
