# read_it_later

The logic of Read It Later, a GNOME client for wallabag, as a Verus library.

- `src/` holds the verified library: articles and their information line and
  preview, the article list with its filters and its order, the actions on
  articles and the requests they cause, the account credentials kept in the
  secret collection, the login check of an account, the keys of the settings,
  the window's views and its saved geometry, and the page that shows an
  article. Each public function states its result in its contract; the laws
  that span several functions stand as public proof functions.
- `tests/` runs the library on concrete values.
- `app/` is the GTK program around the library: widgets, the database, the
  secret service, the HTTP client and the settings store.
