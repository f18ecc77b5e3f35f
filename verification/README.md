# clu

A scanner for malicious packages on PyPI and npm: it watches the package
feeds, runs each new package through heuristic rules, typosquat detection,
YARA rules and an LLM review, stores the verdicts, keeps copies of suspicious
archives, and serves a findings-triage REST API.

## Layout

- `src/` is the library, written in Verus and verified: rule evaluation,
  risk scoring and verdicts, typosquat distances, YARA rule records and scan
  results, prompt sanitisation and the reading of model replies, feed and
  registry parsing, the SQL each storage filter becomes, quarantine naming and
  eviction plans, report formatting, API authentication and response bodies,
  and the configuration with its defaults. Calls into outside crates
  (`yara-x`, `regex`, `levenshtein`, `subtle`, `owo-colors`, `toml`, `rss`)
  go through small trusted wrappers whose contracts are stated beside them.
  YARA compilers are made with `include` directives turned off, so a rule
  file never pulls in another file from disk.
- `app/` is the program around the library: the command line (`init`,
  `watch`, `scan`, `api`), network and file I/O, the SQLite database, the
  HTTP server, and the serde forms of the library's types.
- `tests/` exercises the library from outside.
