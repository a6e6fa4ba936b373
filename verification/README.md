# Media prompt service

The service consumes task messages (`{"task_id": 1234}`), fetches the script of the task, has a
language model generate the prompts of its scenes and storyboards in their order of dependence,
writes them to a table, and publishes the task's completion.

- `src/` is the verified library `media_prompt`. The decisions are made here: the rules of the
  configuration, the requests to the language model and the reading of its responses, retries and
  delays, the course of storyboards, scenes and tasks, the statements of the write transaction,
  sessions with the broker, answers to deliveries, responses, health reports and metrics. One stands
  outside: the token bucket of the rate limit, which counts in floating-point numbers.
- `app/` is the program around it: drivers, HTTP, timers and logging. It performs the actions that
  the library asks for, and hands back the events.
- `tests/` runs the library on concrete values.

| Module | What it decides |
| --- | --- |
| `config` | whether a configuration keeps its rules; `${NAME}` placeholders |
| `llm` | request bodies, the meaning of responses, retries |
| `task` | storyboard, scene and task state machines |
| `db` | the lookup of a script; the statements and the transaction of a write |
| `mq` | consumer sessions, reconnecting, acknowledgement; the completion message |
| `server` | routes, responses and their headers, body sizes, health reports, metrics, refusals |
| `model`, `error`, `text` | the data, the errors, and the text functions that all of it uses |

What each function promises stands in its contract; what holds across functions stands in public
proof functions beside them, such as `task::processor::completed_task_wrote_all_its_records`,
`task::scene::storyboard_failures_do_not_fail_the_scene`,
`mq::consumer::acknowledged_tasks_were_written_and_published`,
`mq::consumer::each_task_is_answered_once` and
`db::mysql::statements_hold_each_record_once`.

The library trusts `serde_json` to parse documents and to find parts of them by JSON pointer; the
contracts that state this stand in `llm::json`.
