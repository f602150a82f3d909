# gisonet

A local HTTPS development proxy. A daemon answers DNS for configured domains
with a chosen address, proxies HTTP and HTTPS requests for those domains to
upstream endpoints (minting a TLS certificate per domain under its own root
CA), and is driven over a Unix socket by a small desktop window with a tray
icon.

## Layout

- `src/` — the verified library (Verus):
  - `store` — the route table (add, remove, list) and its laws;
  - `dns` — which queries are answered locally and with what records;
  - `proxy` — which upstream URL a request goes to, `X-Forwarded-Port`;
  - `ipc` — length-prefixed frames and request handling (`dispatch`);
  - `protocol`, `route`, `net` — the message, route and address types;
  - `config` — settings from command line over config file over defaults;
  - `paths`, `persist`, `cert` — file locations and the certificate cache;
  - `mint` — root CA and leaf certificates through `rcgen`;
  - `pid` — reading the pid file;
  - `client`, `ui` — the window's requests, replies, form and labels;
  - `text` — string helpers.
- `app/` — the program: sockets, threads, hickory DNS server, actix-web
  proxy, rustls, serde wire types, clap, the gpui window and the tray.
- `tests/` — tests of the library.
