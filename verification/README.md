# Oxana MCP

The decisions behind a read-only monitoring server for Oxana job queues, written
in Verus. The library in `src/` is verified; `app/` reads storage, speaks MCP
over HTTP and calls the library.

| Module | What it decides |
| --- | --- |
| `auth` | Which bearer tokens a server accepts, and which requests pass |
| `query` | Which requests are valid, and what is read from storage for them |
| `job` | What a client sees of a job: never its arguments or resumable state |
| `server` | The replies: data in an envelope, or a failure without details |
| `tool` | The catalogue of tools, all of which only read |
| `pagination` | How the dashboard's job lists are cut into pages |
| `json` | The JSON that replies are made of, and the values that go out for it |
| `outside` | The calls into other crates, with what is taken for granted of them |

Functions whose names start with `law_` state and prove what holds of the library
as a whole.

`app/` also links against the `oxana` crate that the workers are built with; it
provides the storage and is not among the dependencies of the library.
