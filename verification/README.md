# xmrtui

A vim-like terminal interface for a Monero wallet that drives the official
`monero-wallet-rpc` server. The interface logic is a library verified with
Verus; the program around it handles the terminal, the clipboard and the
server.

- `src/` — the verified library: key handling as a state machine
  (`app`, `model`), its laws (`laws`), amounts (`amount`), transfer rows and
  their newest-first order (`transfers`, `order`, `wallet`), transfer
  requests (`send`), wallet paths (`paths`), screen text and geometry
  (`screen`, `layout`) and text primitives (`text`).
- `app/` — the program: command line, terminal loop, drawing, the RPC
  server, the clipboard and the XMR price feed.
- `tests/` — tests of the library.
