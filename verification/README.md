# Borderless

Borderless lets two computers share one keyboard and mouse, their clipboards and
their files. The controller watches its own input and hands it to the agent when the
pointer crosses an edge of the desktop; the agent injects it.

The library decides; the program around it does the talking to the system.

* `src/` is the library. Every function in it is verified with Verus against the
  contract it carries. Properties that relate several functions stand beside them as
  public proof functions whose names begin with `law_`.
* `tests/` runs the library, together with the crates it calls.
* `app/` is the program: sockets, hooks, windows, the clipboard, the configuration file
  and a terminal front end. It performs the actions that the library names and hands
  back what happened.

| Modules | Subject |
| --- | --- |
| `geometry`, `control`, `pointer`, `diagnostics` | where the pointer is and who has control |
| `input_event`, `hooks`, `injection`, `send_buffer` | input that is watched, sent and injected |
| `protocol`, `codec`, `wire`, `octets`, `link`, `transport`, `heartbeat`, `latest_pointer`, `stale_pointer` | the control connection |
| `clipboard`, `clipboard_formats`, `clipboard_reading`, `clipboard_sync` | the clipboard |
| `file_transfer`, `bulk_wire`, `bulk_events`, `sending`, `file_sender`, `receiving`, `root_names`, `sources`, `paths`, `hashing` | file transfers |
| `drag_drop`, `drag_events`, `drag_coordinator`, `controller_drag`, `agent_drag`, `drop_authorization`, `desktop_windows` | drags of files |
| `controller`, `agent`, `session`, `session_plan`, `runtime`, `purposes` | sessions |
| `status`, `status_updates`, `ui_model`, `ui_settings`, `config` | what is shown and configured |

What the library takes from other crates is declared in functions marked
`external_body`; their doc comments say what is believed of each call.
