# ms_todo_app

A task manager that keeps its lists in Microsoft To Do.

The library in `src/` holds what the application decides and computes. Verus proves that each function
does what its contract says, and that the laws at the end of the modules hold.

- `integration/ms_todo/http_client.rs`: requests to the service, when one is made again, and how pages
  are gathered.
- `storage/`: lists, tasks and steps, the cache, the filters of the virtual lists, the order of lists,
  and the requests and answers of every operation.
- `app.rs` and `app/`: the messages of the application and what they lead to. `app/model.rs` says what
  becomes of its state, `app/operations.rs` what is put to the service and what an answer leads to,
  `app/nav.rs` which lists are offered, `app/laws.rs` what always holds.
- `pages/`: what passes between the application and its pages.
- `startup.rs`: what is done before the application is shown.
- `clock.rs` and `text.rs`: days of the calendar, and text.

Two calls of `chrono` and one of the standard library are taken on trust. They stand in
`clock.rs` and `http_client.rs`, each with what is claimed of it.

The program in `app/` runs the library on a terminal: it sends the requests, keeps the time and does
what the application asks for.
