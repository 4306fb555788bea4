# rfs

The core logic of a file server, written in Verus. The functions in `src/`
carry contracts that Verus proves, with two exceptions: calls into outside
crates (url, blake3, mime, hkdf) go through small trusted wrappers, marked
`external_body`, whose contracts state what those crates do; and the request
id counter is a standard atomic, whose value Verus does not see, so nothing
is stated of the ids it hands out.

- `path` — path normalization, joining and resolution, parents, file names,
  extensions and the media type served for an extension.
- `config` — the server settings: defaults, and how configuration files are
  merged into them with every referenced path resolved and checked against
  what is known of the file system.
- `error` — the error value and its text, and the numbered trace of an error
  and its causes.
- `net` — addresses, request ids, and whether an `accept` header asks for
  HTML.
- `fs` — file system items (roots, directories, files) built from their
  database rows, storage backends and how an item's backend is matched with
  its storage's.
- `routing` — the decisions behind the HTTP handlers: session
  authentication steps, SQL statements built for updates, permission and
  pepper handling, removal of directory trees, and uploads (header checks,
  the digest of the body, and the order of the file moves that put an
  upload in place or undo it).
- `jobs` — the decisions of a scheduled background job.

`app/` holds the program around the library: the command line, reading
configuration files, looking paths up on disk, running the jobs and binding
the listeners. `tests/` holds the tests.
