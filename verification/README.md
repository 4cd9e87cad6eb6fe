# basilisk_zed

The logic of the Basilisk extension for the Zed editor, verified with Verus.

- `src/` is the verified library: the slash commands and their completions
  (`slash`), the Debug Adapter Protocol configurations (`dap`), the workspace
  configuration sent to the language server (`workspace`), release version
  comparison (`version`), the resolution and download plan of the language
  server binary (`binary`), the JSON values these work on and their text,
  read and written through `serde_json` (`json`), and the
  constants shared with the rest of Basilisk (`common`).
- `app/` is the extension itself: it implements Zed's extension trait, talks
  to the editor and GitHub, converts the JSON values Zed hands over as `serde_json` values, and
  hands the library plain values.
- `tests/` exercises the library on concrete values.
