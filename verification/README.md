# request_services

The decision-making core of an upload/download request service, written in
Verus and proved against its contracts.

- `src/` is the verified library. Its modules hold the task configuration
  (`config`), task states and progress (`info`), the decisions of transfers
  (`task::*`: sizes, ranges, methods, time-outs, status codes and client
  errors, retries, speed limiting, client settings), the notification bar
  (`notification_bar::*`: group progress, notification contents, sizes and
  percentages as shown), the registries of client processes
  (`client_manager`) and run-count listeners (`run_count`), task statistics
  (`task_count`), the per-command checks of the IPC front end (`command`,
  `dump`, `interface`, `permission`), the messages between processes and
  the way a task configuration is written to and read from one (`parcel`),
  the requests of the front end, read from one message and answered in
  another (`construct`, `control`, `get_task`, `groups`, `search`,
  `subscribe`), with lookups and the task manager reached through
  functions the caller hands in,
  and the stored text forms of maps and lists (`utils`, `text`).
- `app/` is ordinary Rust around it: the clock, the hash maps behind the
  stored text, the process-wide statistics, the retry loops of transfers and
  the event loops of the registries.
- `tests/` exercises the library on concrete values.
