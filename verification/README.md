# web_ops

The request paths, query strings, wire values, form checks and table logic
of the Wareboxes warehouse operations console, with their behaviour stated
as Verus contracts and proved.

- `src/` is the verified library:
  - `api` and its modules build every request path and query string of the
    API client, and the errors its screens show;
  - `contract` holds the enums of the wire protocol with their wire values,
    labels and round-trip lemmas;
  - `admin_*` and `administration` hold the decisions of the administration
    workbenches: form checks, the requests they submit, labels, filters and
    sorts, and each workbench's command flow as a step function from state
    and event to the next state and what to do (`clients_step`,
    `plans_step`, `roles_step`, `users_step`, `employees_step`,
    `permissions_step`, `monitor_command_step`);
  - `workbench` holds what those flows share: one command at a time, how an
    answer settles a post, and what follows;
  - `sorting` and `listing` sort table rows by a column and filter them by a
    query; `command` decides what follows a command or a page load, keeps an
    idempotent command for an exact retry (`dispatch_step`), and drops
    responses a newer request has overtaken (`PageList`, `DetailPane`);
  - `text` and `url` are the text primitives (decimal rendering, trimming,
    parsing, percent-encoding) the rest is stated over.
- `app/` is the browser side: the loops that run the step functions
  (`workbenches`), the HTTP transport over `gloo-net`, the
  document upload over `web-sys`, request bodies as JSON, and the byte-size
  label, which is computed with floating point.
- `tests/` runs the library on concrete values.
