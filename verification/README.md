# grok_overlay

The logic of an always-on-top desktop overlay for grok.com, written in Verus
and proved against its contracts.

- `src/` is the verified library:
  - `settings`: the persisted settings, their defaults per platform, save
    requests and what reading them back gives;
  - `text`: Unicode trimming, substring search and string building;
  - `window`: the windows and webviews that are built, and the commands each
    action sends to a window, with a model of their effect;
  - `autostart`: the launch-at-login procedure, one plugin call at a time;
  - `hotkey`: key combinations parsed by global-hotkey, each tied to the text
    it was parsed from;
  - `shortcut`: parsing the global shortcut and the texts of its failures;
  - `tray`: the tray icon, its menu and the dispatch of its clicks;
  - `save`: saving a request from the settings window, one call at a time;
  - `startup`: the start-up sequence as a state machine;
  - `messages`: the error texts.
- `tests/` runs the library on concrete values.
- `app/` is the Tauri application that performs the calls the library asks
  for: windows, plugins, files and the settings file's JSON form.
