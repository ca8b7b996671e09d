# process-display

A terminal process monitor: a table of the running processes that can be filtered and
sorted, charts of processor, memory and network use over time, and a help window.

The state and the decisions of the interface are a library verified with Verus:

- `src/app.rs` routes keys and mouse events between the views and moves the focus.
- `src/components/` holds the views (processes, processors, memory, network,
  temperatures, help, error, filter line, tab bars) and their helpers (chart windows,
  list selections, scrolling, screen areas).
- `src/models/` holds the sample queues, the process rows, the filter language and the
  stable sort of the process table.
- `src/process_list/` and `src/performance_queue/` hold the process list with a
  selection that can follow its process, and the sample histories.

`app/` is the program around it: it reads the system with `sysinfo`, turns terminal
events from `crossterm` into the library's keys and mouse events, and draws with
`ratatui`. Readings that are floating-point numbers stay there; the library gets what
stands for them (an order rank for processor use, and the outcome of a processor-use
filter).
