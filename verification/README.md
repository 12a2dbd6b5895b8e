# kv_from_rust

A small key/value service for a Cloudflare Worker: `PUT`/`POST` store a text
under the request's path (or a JSON record under `/kv/<id>`), `GET` reads it
back. Records expire after a duration written like `1d`, `1d1h`, `90 min`.

- `src/` is the verified library: the duration parser (`duration_helper`),
  whole-second arithmetic on `chrono::TimeDelta` (`time_delta`), the record
  types (`kv`), planning of record writes (`store`), the request handler's
  decisions (`handler`), text helpers (`text`) and the laws of duration
  terms (`terms`).
- `app/` is the Worker glue: JavaScript bindings, the KV namespace calls and
  the `handle` entry point, which runs the library's decisions.
- `tests/` exercises the library on concrete inputs.
