# teebench_web

A web front end for the TeeBench benchmark suite: users upload join operators
("commits"), configure profiling experiments or performance reports, and the server
compiles the operators into TeeBench, runs the experiments (or finds their results in a
cache) and reports the results.

The library under `src/` holds the logic, verified with Verus:

- `data_types`, `profiling`, `commandline`: the experiment vocabulary, configurations and
  the TeeBench command lines they expand into; `args` reads a command line back into the
  arguments of a run.
- `hardcoded`, `predefined`: the fixed experiments of a performance report and the example
  commit.
- `commit`, `queue`: the uploaded commits, the job queue and the server's answers on a
  client's websocket.
- `runner`, `output`, `caching`: what the worker decides (which code to compile, how a build
  is logged, how results become a report), reading TeeBench's CSV output and the text of
  the result cache.
- `findings`: the verdict on how a join scales with the threads it is given.
- `datetime`, `text`: time stamps and their calendar text, decimal text and string helpers.
- `laws`: properties that relate several operations.

`app/` is the server itself: HTTP and websocket handlers, the worker loop that runs
processes, the SQLite cache, the findings that compare measured throughputs, and the JSON forms of the library's types.
