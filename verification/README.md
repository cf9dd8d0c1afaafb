# HTTPS server

An HTTPS server that obtains and renews its own certificate with an external
ACME command, redirects plain HTTP requests, and reports on its health.

- `src/` is the library, verified with Verus: how certificates are obtained and
  renewed, and what the server answers.
  - `acme`, `dates`: the certificate's configuration, metadata and dates
  - `provision`: how a certificate is obtained, as a state machine
  - `cert_manager`: the daily renewal loop, as a state machine
  - `server`, `config`, `http_redirect`, `proxy`: what the server answers
  - `clock`, `paths`, `text`: what these rest on
  - `acme_laws`, `provision_laws`, `pair_laws`, `renewal_laws`: what holds of all
    of it
- `app/` is the program: it carries out what the library asks for. Which paths
  are routed to which answer, which acceptor a connection uses, how the TLS
  implementation loads a certificate and how the server shuts down is decided
  there.
- `tests/` run the library.

The state machines hand out actions and take events. The program performs an
action, waits for what comes of it, and hands that back as an event.
