# tradeassembly-runtime

The rules of a local trading runtime, written in Verus: every decision that the runtime
makes about agents, backtests, evidence, identities and stored records is a function with a
contract, and the contracts are proved.

- `src/` is the library. Nothing in it touches a file, a socket, a clock or a process.
  Supervision, recovery, attachment and renewal of agents, the service of a runner, the
  outbox of evidence, the call of the agent's command line, the worker of the message broker
  and the claims on its queues go back and forth with the outside. For each of them the
  library holds a step function: from where the operation stands and what became of the last
  request, it gives the next request.
- `app/` is the program around it: the database, the message broker, processes, files,
  HTTP and floating point.
- `tests/` runs the library on concrete values.

Modules of the library:

| module | what it decides |
| --- | --- |
| `agent_runner` | when an agent runs, under which authority, and what becomes of a run that broke off |
| `agent_launchd` | the launchd service of a runner |
| `agent_surfaces` | positions and candidates as they are shown |
| `archive_outbox` | evidence on its way to an archive |
| `adapters` | what is asked of the database and the broker, and what their answers mean |
| `backtest_*` | the configuration, the accounting, the execution and the report of a backtest |
| `attribution_journal`, `audit` | what a journal has to hold, and the record of a run |
| `auth`, `admin_control`, `api_errors` | who may do what, and what is answered |
| `ai` | drafts of a strategy |
| `runner_protocol`, `sandbox_launcher` | the lines of the runner and the bundled sandbox |
| `json`, `text`, `text_map`, `sorting`, `digest`, `ports` | what the others are made of |

What is trusted and not proved stands behind small functions with a doc comment each: the
JSON reader and writers, SHA-256, base64, the system's random numbers, the calendar of UTC,
and a few functions on text of the standard library.
