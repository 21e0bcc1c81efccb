# MicroHub

MicroHub is a Shiny app in a desktop window. The build ships with an R runtime; on the
first launch the runtime is unpacked, then R is started, and when R serves the app the
window opens it.

`src/` is the logic of that work, verified with Verus:

| module | what it holds |
| --- | --- |
| `payload` | the archive appended to the portable executable |
| `layout`, `places` | the places on disk, and how they are named |
| `search` | looking for a file in a list of places |
| `runtime_id` | which runtime is installed, and which one should be |
| `install`, `install_action` | the stages of an installation, what each does, and its errors |
| `command` | programs to run, with their arguments |
| `launch` | how R is started |
| `job` | tying R to the app on Windows, call by call |
| `waiting` | waiting for R to serve, what to look at, and the errors |
| `session_log` | the end of R's output, for error messages |
| `page` | scripts for the splash page |
| `startup` | the steps of a start, what each does, and the end of R with the app |
| `text` | white space, lines, numbers |

The library does no I/O. Where a decision depends on the disk, a process or the clock, a
function takes what was seen and says what comes next. `app/` looks, acts and asks again:
it is the window, the disk and the processes round the library.

What is believed without proof is marked `external_body` or `assume_specification`:
`serde_json::to_string` and the `{:?}` of strings, `url::Url::parse`, and `String::push`.
