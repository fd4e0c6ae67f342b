# filen_relay

The verified core of Filen Relay, a server that makes directories and files
of a Filen drive reachable as shares over the web, WebDAV, S3, FTP and SFTP,
and of its deployer to Scaleway Serverless Containers.

- `src/` — the library, verified with Verus:
  - `server_type` — server kinds and their URL, protocol and display names;
  - `share`, `ids` — shares, share identifiers and their short form, and the
    random and parsed identifiers of the `uuid` crate;
  - `once_lock` — a value that is set once and read afterwards;
  - `path_walk` — the path of a directory or file, found by walking up its
    parents;
  - `root_check` — checking the root of a new share (identifier or path);
  - `access` — which shares a user sees and may remove, and what needs the
    administrator;
  - `api` — the endpoints' decisions around their database calls, the
    share a new share request stores, and the failure messages;
  - `startup` — where the database comes from and which port is used;
  - `deploy` — names, namespace choice, container settings, and the
    deployment as a step function (create, wait until ready, create and
    deploy the container);
  - `server` — what the share routes do with a request (answer, redirect
    or forward), the answer to a failed forward, and logout's answer;
  - `text` — text helpers.
- `app/` — serialized forms, SQLite conversions, responses, and the loops
  that perform the network calls and waits the library asks for.
- `tests/` — tests of the library on concrete values.
