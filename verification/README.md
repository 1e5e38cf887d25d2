# window_class_finder

A window finder for Windows in the style of Everything: it lists the top-level windows with
title, process name, process id and class name, filters them as you type (case-insensitive),
shows a lazily loaded tree of child windows, locates the window under the mouse (button or
global hotkey, F8 by default), and answers `--class NAME` on the command line with the JSON of
the first matching window.

Layout:

- `src/` is the library, verified with Verus: the window records and their models
  (`window_info`), the window tree with lazy loading, lookups and title paths
  (`ui/tree_helper`), the search filter (`ui/app_state`), the locate mode
  (`ui/locate_mode`), the finder window's decisions as a state machine (`finder`),
  the hotkey names and codes (`hotkey`), the command-line query and its JSON (`cli`),
  the clipboard texts (`clipboard`), process names (`windows_api`), the icon (`icon`)
  and the text building blocks they share (`text`).
- `app/` is the program around it: the Win32 calls, the egui window, the clipboard and the
  console output. It reports events to the library and carries out what the library decides.
- `tests/` runs the library on concrete windows, keys and command lines.
