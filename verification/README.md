# ime_indicator

The logic of an input method indicator for Windows. A coloured dot below the caret
and beside the mouse shows whether the input method is in Chinese or English mode,
and the input language is switched when the focus enters or leaves an input.

`src/` is the library. Its functions state in contracts what they do, and Verus
proves the contracts:

- `clock`, `text`, `processes`: points in time, texts, and the lists of applications
  that are treated specially.
- `clicks`: presses of the mouse button and double clicks.
- `edit_event`, `design_mode`, `office_mode`, `edit_mode`: whether text is being
  edited in applications that show no caret for it.
- `identity`, `caret_detector`: where the caret is, and what is in focus.
- `auto_switch`, `language_switch`: when to switch the language, and how.
- `ime_detector`: the mode of the input method.
- `overlay`, `indicator_loop`: where and when the dots are shown.
- `running_apps`, `tray`, `single_instance`: the list of applications, the tray
  menu, the rule editor, and the single running instance.
- `config_file`, `config`: the lines of the settings file, the settings of switching
  and of the dots, and the rules that the user chose.
- `laws`: what holds over several calls.

Three functions of the standard library are called without proof: `Path::file_name`
in `processes`, and `str::to_lowercase` and `Path::file_stem` in `running_apps`.

`app/` is the program around the library: it talks to Windows and hands the library
plain values. `tests/` runs the library on concrete inputs.
