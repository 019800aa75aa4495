# spotnowplay

A client of the Spotify dealer WebSocket that tells event handlers what the
user's account is playing, with a way to get the Spotify token through the
Spotify connection of a Discord account.

- `src/` is the verified library: the decisions of the client, with their
  contracts and laws.
  - `wss.rs`: what a `wss://event` message asks of the handlers, the device
    tracked across messages, and the laws of that handling.
  - `lib.rs`: status codes of the Web API, the reply to the dealer's `PUT`
    requests, frames of the WebSocket, the steps of handling one dealer
    message, the device tracked across a run (`Session`), the client and its
    builder.
  - `discord_integration.rs`: the wait for the Discord `READY` event, the
    choice of the Spotify account, and the steps of getting a working token
    (`AvailableToken`).
  - `api.rs`, `string_map.rs`, `text.rs`: the message and Web API types, an
    insertion-ordered string map for headers and ids, and string comparisons.
- `app/` reads and sends: the WebSocket connections, the HTTP requests, the
  JSON parsing into copies of the library's types, and the event handlers.
- `tests/` runs the library on concrete values.
