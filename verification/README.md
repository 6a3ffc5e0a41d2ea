# wtm

The interactive interface of a git worktree manager, as a verified library.

`src/` holds the application's state and every decision it makes: what a key, a
click or a tick does to each screen, which files and branches a list shows, what
is asked of git, and what the answers lead to. Nothing in it touches a terminal,
the disk or another process. What has to be done outside goes out as a
`Request` and comes back through a method of `App`.

The state of every screen has a mathematical model, and each handler states how
the model changes. `laws.rs`, `consent.rs`, `history_laws.rs`, `tree_laws.rs` and
`setup_laws.rs` prove what holds over several steps.

| Part | Modules |
| --- | --- |
| State | `app`, `model`, `request`, `geometry`, `theme`, `styled`, `text` |
| Input | `keys`, `mouse`, `modal_keys`, `input`, `ticks`, `pace` |
| Tabs | `tabs`, `changes`, `changes_keys`, `panes`, `marks`, `operations` |
| Screens | `create`, `forms`, `history`, `commit_browser`, `resolver`, `help` |
| Dialogs | `modal`, `dialogs`, `candidates` |
| File lists | `rows`, `tree`, `highlight`, `paths` |
| Settings | `config`, `config_editor`, `setup` |

`app/` is the terminal around it: the event loop, the conversion of terminal
events and styles, and the dispatch of requests to a `Backend`.
