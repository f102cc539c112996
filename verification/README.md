# config-get

Cross-platform configuration file locator and reader, with its core verified
by Verus.

- `src/` is the verified library: the ordered key/value model (`value`,
  `table`), the document tree and its flattening (`node`), the parsers for
  `.env`, `.ini`, `.toml`, `.json` and `.yml`/`.yaml` text (`parsers`),
  format detection (`format`, `path`), the directory search (`discovery`),
  the reader and its builder (`config_get`), error values (`error`), colour
  settings and resolution (`config`, `colors`), the classification of
  `git status` output (`status`), GitHub remote resolution (`remote`), and
  properties of the whole (`laws`).
- `app/` is the `config-get` command and the I/O around the library: reading
  files, probing the file system and the environment, running `git`, calling
  the GitHub API, and printing.
- `tests/` exercises the library.
