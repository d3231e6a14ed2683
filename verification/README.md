# BigEcho

A desktop recorder for meetings: it records the microphone and the sound of the system into one
file, has the recording transcribed and summarized by two services, and keeps each session in a
directory of its own, `<tag>/DD.MM.YYYY/meeting_HH-mm-ss`.

`src/` holds the decisions of the recorder, each with a contract that Verus proves. A command that
needs the disk, a device, a service or a window is written as a script: it names the tasks to carry
out and the question to answer next, and goes on with what came of them.

| module | what it decides |
| --- | --- |
| `script`, `task` | scripts, their tasks, and how a failed task ends a command |
| `recording`, `recording_laws` | the start and the end of a recording |
| `pipeline`, `pipeline_laws`, `logging_laws` | transcription and summary of a session |
| `retry` | the worker that tries failed sessions again |
| `catalog`, `catalog_laws` | listing sessions, opening their folders, deleting them |
| `details`, `session`, `settings`, `secrets`, `ui_sync` | what is known of a session, and what the user sets |
| `windows`, `menu`, `levels`, `json` | windows, the tray, shortcuts, menus, input levels, messages |
| `clock`, `text`, `api_log`, `text_editors` | times, texts, the log of calls, editors |

`tests/` runs the commands against a machine in memory. `app/` is the program around the library: a
Tauri shell that carries out the tasks. It reaches the audio devices, the key ring and the services
through a helper program, `bigecho-host`, which `BIGECHO_HOST` may replace.
