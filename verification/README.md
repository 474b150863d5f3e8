# crcli

The verified core of a Cloudreve desktop and mobile client, written in Verus.

`src/` is the library. Each public function carries a contract that Verus
proves; calls into outside crates (sled, http, url, base64, urlencoding, md5,
chrono, reqwest) go through small trusted wrappers whose contracts are stated
beside them.

- `proto/`: the data model (errors, settings, login, storage and share
  messages) and the rules for reading the server's replies.
- `state.rs`, `store.rs`: settings, session tokens and identifiers kept in the
  sled store.
- `api.rs`, `commands.rs`: what each command asks the server and how the reply
  is read.
- `hc/`: requests, API addresses, the client manager and pools, the signal
  server's address.
- `iroh.rs`: the `iroh://` scheme: decoding the address it carries, the
  request it becomes and the headers its reply takes over.
- `signal.rs`, `rendezvous.rs`, `client/`, `service/`: peer search, UDP hole
  punching, peer-bound client pools and chunked uploads, as step functions the
  caller drives.
- `media.rs`, `path.rs`, `net.rs`, `text.rs`: gallery scanning rules and
  newest-first order, path names, IPv6 reachability and text helpers.
- `laws.rs`: properties that span several operations.

`app/` is a small command-line program around the library: network I/O,
serde forms of the messages, file transfers and the scheme handler.
`tests/` exercises the library on concrete values.
