# bili_sync

The metadata, naming and task-queue logic of a Bilibili media downloader,
written in Verus with its behaviour stated as contracts and proved.

- `src/` — the verified library
  - `text` — character-level string operations with their specifications
  - `models` — the stored video and page records as plain values
  - `bangumi_name`, `format_arg` — series names, season numbers and the
    named arguments of file-name templates
  - `regex_match`, `time_text`, `xml` — the calls into regex, chrono and
    quick-xml, each behind a small function whose contract is assumed
  - `nfo_text`, `nfo` — NFO metadata documents (movie, tvshow, person,
    episode, season) built as XML event sequences
  - `task`, `cleanup` — task queues, the scan controller, and which files and
    folders a deletion touches
  - `api` — request and response bodies of the web API
- `app/` — plain Rust around the library: JSON columns, task (de)serialisation,
  the loops that run tasks, file-system work
- `tests/` — tests of the library
