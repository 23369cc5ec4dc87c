# Task manager

The task manager of a distributed query scheduler: it queues jobs, submits them
to persistent job state, publishes their execution graphs in a cache of active
jobs, prepares their tasks for executors, and aborts them at any point of that
way.

`src/` is the library. It is verified with Verus and performs no input or
output: an operation that has to wait for something is a chain of steps, each of
which says what to do next and takes the outcome back.

| module | what it holds |
| --- | --- |
| `lifecycle` | the control of one job, which orders cancellation and publication |
| `manager`, `maps` | the manager itself and its two concurrent maps |
| `submission`, `abort` | submitting and aborting a job |
| `cache`, `encoding` | what is cached for an active job, and encoding its plans |
| `launch`, `tasks` | preparing tasks for executors |
| `updates` | status updates of tasks, and lost executors |
| `jobs` | reading, completing, updating and cleaning up jobs |
| `progress` | progress snapshots |
| `laws` | what holds of the manager as a whole |

`app/` runs the library on an asynchronous runtime: it waits for job state,
graphs, subscribers and clocks, and turns identifiers into shared values.

What the library trusts of other crates stands in `maps` (`dashmap`),
`encoding` (`datafusion-proto`), `jobs` (`rand` and the standard library),
`manager` and `status` (the standard library).
