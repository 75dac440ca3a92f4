# ppaass

A proxy that tunnels TCP and UDP traffic from SOCKS 5 and HTTP clients through
an encrypted, framed message stream between an agent (on the client side) and
a proxy (on the server side).

The library in `src/` holds the protocol and its rules, written in Verus and
verified against their contracts:

- `wire`, `address`, `payload`, `message`: the byte layout of integers,
  addresses, payloads and messages, with proofs that reading gives back what
  was written.
- `crypto`, `codec`: the payload ciphers, RSA handling of encryption tokens,
  and the frame codec (flag, compression byte, length, body) with its
  decoder state machine.
- `socks5`: the SOCKS 5 messages and codecs the agent uses with its clients.
- `service`, `relay`, `flow`, `fetcher`, `server`: what is written and read
  on a message stream, how data is cut into payloads, the decisions of the
  connection flows, where users' keys are found, and the proxy server's life
  cycle.
- `agent_config`, `proxy_config`: the settings and how command-line
  arguments override them.

`app/` is the program around it: `ppaass agent`, `ppaass proxy` and
`ppaass util` (RSA key files for a user). It reads files and sockets, runs the
tokio runtime and hands plain values to the library.
