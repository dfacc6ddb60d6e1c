# rustdesk_pp

Headless control of RustDesk peers — file transfer, peer commands, batch
manifests and a small HTTP API — with every decision made by a library
whose contracts are proved with Verus.

- `src/` — the verified library:
  - `text` — character-level searching, splitting, trimming, decimals;
  - `json` — field and array extraction from flat JSON text, string escaping;
  - `http` — request line and body, routing, answer bytes, request plans,
    peer status reports;
  - `peers` — the registered peers read from the rendezvous server's
    database dump, and the peer list answer;
  - `rendezvous` — rendezvous/relay addresses, the punch-hole attempts,
    peer probe reports, relay pairing;
  - `login` — the password proof (double SHA-256) and the login session;
  - `transfer` — target paths, peer lists, listings, collection plans, and
    the reaction to each message during a transfer;
  - `batch` — manifest reading and report lines;
  - `oauth` — authorization URL, state token, callback code;
  - `local` — local status report and the IPC transfer job;
  - `laws` — properties of the library as a whole.
- `app/` — the sockets, files, processes and protobuf messages around it.
- `tests/` — tests of the library on concrete values.
