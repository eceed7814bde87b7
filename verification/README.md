# response_stream

A response stream is one request to an agent API, with its attempts, its failures and
what is done about them. This library holds the decisions: when a request is sent,
re-sent, parked until connectivity returns, resumed or given up; which credentials are
refreshed first; and how a turn of the Codex app-server becomes the same response events
that the API would send. It is written in Verus, and every decision is proved to be the
one that its contract states.

The library performs nothing. Its state machines take what happened and return what is
to be done; the crate under `app/` does it.

| module | what it holds |
| --- | --- |
| `recovery` | how a failed attempt is recovered from |
| `stream` | the state of a response stream and what each report does to it |
| `request` | how a request is sent, and the end of a credential refresh |
| `stream_laws` | what holds of every stream, whatever happens to it |
| `codex_rpc` | the messages to the Codex app-server, and what can go wrong |
| `codex_session` | the handshake, the turn and its end |
| `codex_mapper` | from app-server notifications to response events |
| `codex_laws` | what holds of every turn, and of the client that follows it |
| `api` | response events, client actions, request parameters and errors |
| `json`, `text`, `ids`, `clock`, `consumable` | the values they are made of |

Random identifiers and the time enter through functions that draw them. Beside each
stands one that takes them as arguments and has an exact contract.

`app/` runs the attempts, the app-server process and the credential refreshes for a host
application that implements its `Host` trait.

## What is taken on trust

The proofs rest on the contracts of a few functions that call outside code: parsing and
encoding JSON with `serde_json`, drawing and writing UUIDs with `uuid`, reading the clock
with `chrono`, and `str::trim`. Each of them says in its documentation what is claimed.
