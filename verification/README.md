# keyboard_windows

Keyboard automation for Windows, with its logic verified by Verus, and a
clipboard-driven chat assistant built on it.

- `src/` is the verified library:
  - `key`: keys and their virtual-key codes (the code table in both directions),
    key groups, and the reading of a key's state;
  - `char_sender`: which keystrokes type a character and the key events that press
    and release them;
  - `handler`: the keyboard hook's decisions: which events it looks at, which
    hotkeys fire, whether an event is swallowed, the message loop's steps;
  - `typer`: the auto-typer that types a text one character per key press;
  - `assistant`: the assistant's session, its chat request and clipboard choices;
  - `image_url`: a clipboard bitmap as a JPEG data URL (through `image` and `base64`);
  - `icon`: the tray icon's pixels and the colour of each log level.
- `app/` is the Windows program: the hook and input threads, the tray icon, the
  clipboard, the chat service, and the wiring of the hotkeys.
- `tests/` runs the library on concrete values.
