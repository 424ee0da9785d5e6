# rust-python-lab

An execution controller for asynchronous Python work, with a core whose
behaviour is proved by Verus. Python's asyncio runs coroutine bodies; the
controller decides when they may start, repeats them when they fail, cancels
them, times them out, gathers and streams what they give, and shuts down.

```python
from rust_python_lab import OnFull, RetryPolicy, Runtime, Task

async with Runtime(
    max_concurrency=32,
    queue_capacity=128,
    on_full=OnFull.REJECT,  # or OnFull.WAIT
    default_timeout=30.0,
    retry=RetryPolicy(max_attempts=3, backoff_ms=100),
) as rt:
    handle = rt.submit(call_llm, "hello", timeout=10.0)
    result = await handle
    results = await rt.gather([Task(call_llm, prompt) for prompt in prompts])
    async for event in rt.as_completed(tasks):
        ...
    async for token in rt.stream(llm_tokens, "hello"):
        ...
```

## Layout

- `src/` is the core. It never waits: callers wait, look, and hand in what they
  saw, and the core says what to do next. What it rests on of `tokio`,
  `tokio-util` and `futures-channel` is stated where those types are declared,
  in `gate.rs`, `bell.rs`, `cancel.rs`, `stream.rs` and `bridge.rs`.
- `app/` is the Python module: classes, exceptions, and the async loops.
- `tests/` runs the core on given values.

Functions named `law_..` state what holds across calls:

- that every task is counted once, as queued, in flight or ended (`journal.rs`);
- that an asyncio task is never left running behind a wait that was cancelled,
  timed out or given up, whether it was handed over by then or arrives later
  (`bridge.rs`);
- that a call is made no more often than its policy allows (`retry.rs`);
- that gathered results come in the order of the tasks, and that the first
  failure in time is what is raised (`gather.rs`);
- that a stream sends what its generator gives, and that completions are passed
  on as tasks finish, each once and in order (`stream.rs`, `forward.rs`);
- that a closed runtime stays closed (`runtime.rs`);
- that no more tasks run than allowed, and that only a full queue refuses, of a
  model of the tasks under way that submissions and looks at the semaphores
  follow where each attempt gives a permit exactly if one is free
  (`capacity.rs`).
