# task_watcher

Monitoring of long-running background tasks: tasks are run periodically or continuously, with
delays between runs and retries after failures; their status is shown on a page as HTML, JSON or
plain text; and changes in their health are told as alerts in Slack.

- `src/` is the library: everything that is decided on the way, specified and proved with Verus.
  `src/laws.rs` states what holds of it as a whole.
- `tests/` runs the library on concrete values.
- `app/` is the application side: it runs the tasks on `tokio`, serves the page with `axum` and
  posts alerts with `reqwest`.
