# spotify_cli

A terminal Spotify client. The library under `src/` holds its logic, verified
with Verus; `app/` is the binary around it (terminal, HTTP, files, OAuth
callback server).

- `text`, `url`: decimal and `m:ss` formatting, shortening, percent-encoding
  and decoding.
- `spotify`: the Web API's data, the HTTP call of each request, the handling
  of response statuses.
- `events`: key bindings.
- `app`: the state machine of the UI. An event or a reply changes the state
  and asks for the next outside work (`Command`); `app/` performs it and
  hands the outcome back as a `Reply`.
- `auth`, `callback`, `config`: the PKCE flow's texts and decisions, the
  parser of the OAuth callback, the configuration paths.
- `ui`: the texts that the screen shows.
- `laws`: properties that span several functions.
