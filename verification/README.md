# discord

A client library for the Discord API whose logic is verified with Verus.

`src/` is the verified library. It decides what goes over the wire and what
to make of what comes back; it performs no I/O itself.

- `routes`: for every REST operation, the request (method, URL, JSON body).
- `bulk`: the id list of a bulk delete: each id once, ascending.
- `cache`: the login-token cache file: reading a token, the login request
  that presents it, rewriting the file.
- `response`: reading login, gateway, shard-count, profile and status-page
  responses.
- `edits`: what a channel edit reads of the channel, and the current fields
  that channel and profile edits start from.
- `upload`: file uploads and interactions as `multipart/form-data` bodies.
- `frames`: the JSON text carried by a websocket message.
- `flow`: when a request is sent again (aborted connection, rate limit).
- `timer`: the heartbeat timer, which keeps its schedule.
- `image`: an image file as a base64 data URI.
- `auth`, `text`, `json`, `request`, `model`, `error`, `interact`,
  `internal`: tokens and invite codes, text helpers, the data types.

`app/` is the client around it: HTTP over hyper, the websocket, files and
sleeping.
