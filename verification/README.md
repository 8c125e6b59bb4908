# SpoolCtl

A portable tool for the Windows print service (Spooler): it shows the state of the
service, restarts it when it hangs, clears a stuck queue, watches for hangs from the
tray, and tells of new print jobs — for this computer or, without an agent, for a remote
one. Its window and its command line speak Russian.

`src/` is the library: the rules that the tool goes by, verified with Verus. It makes no
call into the system; it says which call comes next, or what the calls that were made come
to. `app/` is the program around it, which is not verified: the window, the tray icon, the
Win32 calls and the files, and the little that is decided among them, such as which
renderer is tried next.

| Module | What it is about |
| --- | --- |
| `host` | what the user's text for a target computer means, and the names derived from it |
| `spooler`, `control` | the states of the service; stopping, starting, restarting, clearing and repairing, call by call |
| `queue` | the queue folder, the printers and what kind they are, the queue at a glance |
| `watchdog` | when a hang is warned of and when the service is restarted |
| `print_notify` | which printers have new jobs |
| `settings` | the settings file that several modules share |
| `log` | log records, and the rotation of log files |
| `gui`, `theme`, `tray` | the state of the window and what every click, tick and tray message does to it |
| `cli` | the command line and what the commands say |
| `autostart`, `elevate`, `ncd`, `os`, `single_instance`, `shell`, `win32` | the start with Windows, rights, automatic setup of devices, and smaller questions about the system |
| `text`, `lines`, `number`, `order`, `wide`, `paths`, `clock` | texts, numbers and times, as the rest of the library speaks of them |

What holds of a module as a whole stands in proof functions whose names begin with `law_`.
The library believes four things without proof: `String::push`,
`char::from_u32`, `str::to_lowercase` and `windows_core::HRESULT::from_win32` do what
their documentation says.
