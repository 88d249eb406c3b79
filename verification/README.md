# Vista Platform shell

The desktop shell of Vista Platform: one borderless window with a title bar of
its own and one content webview for each open tab, of which one shows. Tabs are
opened by the pages themselves. The softphone page runs in a tab too, and a live
call decides what may be closed.

- `src/` is the verified library. It holds the state of the shell and every
  decision: which webview shows, which is parked or hidden, what a request to
  open or close does, where a link leads, what the start scripts are, and when
  an update is installed. It works on plain values and never touches a window.
- `app/` drives the windowing toolkit. It hands the library what happened and
  carries out what the library answers. Sizes and positions are computed there,
  since they are floating-point numbers.
- `tests/` runs the library.

| module    | holds                                                        |
|-----------|--------------------------------------------------------------|
| `text`    | prefixes, suffixes, decimal notation, positions in lists     |
| `page`    | the parts of a URL, the segment that names a page, tab titles |
| `routing` | new windows, navigations, sign-in hosts, the microphone      |
| `scripts` | the scripts that run in the webviews, the order of plugins   |
| `notice`  | what the title bar is told                                   |
| `model`   | the shell as a state machine over mathematical values        |
| `shell`   | the executable shell, proved against `model`                 |
| `laws`    | what holds of the shell whatever is asked of it              |
| `update`  | the course of an update                                      |
| `window`  | the main window and the sign-in window                       |
