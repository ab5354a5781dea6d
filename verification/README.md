# todoist_sdk

A client library for the Todoist sync API, written in Verus.

- `src/` is the verified library: commands and their builders, tasks,
  projects, colors, due dates and deadlines, the classification of HTTP
  failures, and the sync bookkeeping of `APIClient` (which sync key a
  request carries, how a response moves it on, which command errors a
  batch reports). Dates and times are held as plain values; `chrono` and
  `chrono_tz` parse the API's date strings behind small trusted wrappers.
- `app/` is the terminal client: it performs the HTTP requests, turns JSON
  into the library's types and back, and draws the task list.
- `tests/` runs the library on concrete values.
