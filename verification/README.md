# roost_engine

The decisions of a terminal engine: tabs on PTYs, the workspace that holds their rows, the
sockets that clients speak to, and the streams that carry a tab's screen and the workspace's
changes to them.

`src/` is the library. It holds no clock, no file and no socket: what depends on the outside is
handed in as a fact, and what has to be done outside is handed back as an action. Where outside
work and decisions take turns, the library has a machine that is fed the answer to its last
action: `pty::SpawnFlow` and `pty::ExitWatch`, `application::RowSpawn`, `attach::Attach` and
`attach::Pump`, `tab_task::TabLoop`, `event_push::Relay`, `facade::execute` and `facade::resume`,
`facade::EngineEventStream`, `ipc::carry`, `single_instance::acquire_locks`.

`app/` runs those machines on tokio, portable-pty and the file system.

| module | decides |
| --- | --- |
| `application` | where a shell starts, and in which order rows and sessions come and go |
| `attach` | who gets a tab's terminal, and which frame goes out next |
| `crash` | what a crash report says and where it goes |
| `entropy` | names and numbers from the operating system's randomness |
| `event_push` | what a subscriber is sent of the workspace's commits |
| `facade` | what a command of the engine does, step by step |
| `git_metrics` | what a repository's row shows |
| `ipc` | which operations a socket serves, and what it answers |
| `osc` | what control sequences do to colors, and how queries are answered |
| `path`, `text`, `text_map` | paths, texts and maps keyed by text |
| `pointer` | which pointer reports go out |
| `process` | how a helper is run, and where it is looked for |
| `pty` | which tabs have a session, and what a child is started with |
| `session` | a viewer's output and input, in order |
| `single_instance` | which locks an instance holds |
| `tab_task` | a tab's numbering, replay, input queue and exit |
| `workspace` | the types that the rows and their changes are made of |

Functions whose names begin with `law_` state what holds across several operations.
