# spotify_mcp

A Model Context Protocol server that lets an assistant control Spotify:
playback, search, the queue, playlists and the Liked Songs library.

The verified library (`src/`) holds the server's logic, with contracts
proved by Verus:

- `models`, `tools`: the Web API objects the server reads and the tools'
  arguments, as plain values.
- `requests`, `json`: the request each client operation sends (method, path,
  JSON body, what a successful answer carries), page-size clamping and URL
  encoding of query values.
- `response`, `error`: how an answer's status is handled, the message of a
  failed request, and the protocol error codes.
- `render`, `replies`, `text`: every text a tool answers with.
- `token`: token expiry, refreshed and newly authorized tokens, and the
  decisions taken before a request and at start-up.
- `callback`: reading the authorization code and checking the CSRF state
  from the OAuth callback's request line.

`app/` is the program around it: the stdio MCP transport (`rmcp`), HTTP
(`reqwest`), the OAuth exchange (`oauth2`), the token file, and serde copies
of the library's types.

## Setup

Create a Spotify app with the redirect URI `http://127.0.0.1:8888/callback`,
set `SPOTIFY_CLIENT_ID` and `SPOTIFY_CLIENT_SECRET` (a `.env` file works), and
run the binary once to authorize; the token is saved to
`~/.config/spotify-mcp/token.json` and refreshed when it is about to expire.
