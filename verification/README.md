# ink_hotkeys

Keyboard shortcuts for the drawing tools of a note-taking application on
Windows: right control toggles arrow and pen, `.` toggles pen and eraser,
`,` the small arrow, `-` and a double right control draw selections, the
arrow keys undo and redo, a double left shift zooms by hand and a double
right shift switches between manual and automatic zoom.

- `src/` is the verified library (Verus). `controller.rs` holds the state
  machine (`HotkeyState::key_down`), `input.rs` the keyboard and mouse input
  it asks for, `tools.rs` the tool tables, `overlay.rs` the zoom-mode toast,
  `events.rs` the mouse-hook filter and the message-loop decisions, and
  `laws.rs` the proved properties.
- `app/` is the Windows program: it installs the hook, calls the library and
  replays the returned input through the Win32 API.
- `tests/` runs the library on concrete key sequences.
