# protocols

Verified codecs and wire formats of common Internet protocols, written in Verus. Every
function of the library carries a contract that Verus proves; the round-trip laws of the
formats (what a writer writes, the reader reads back) are stated and proved as proof
functions beside them.

Layout:

- `src/` — the verified library:
  - `text`, `octets`: string and octet helpers (splitting, numerals, big-endian integers).
  - `inet`: IP addresses and their text forms.
  - `http`: QPACK integers and strings, the Huffman code, header names and values, status
    codes, the reading side of an HTTP/1.1 connection as a state machine, HTTP/3 settings.
  - `dns`: header flags, questions, messages and their frames, resource record types and
    their zone file text, zone file directives.
  - `ldap`: basic encoding rules, the messages of a bind, message builders.
  - `rtp`, `rtcp`: packet headers and the reports of RTCP.
  - `imf`, `rtsp`, `sdp`: header names and the values of their headers.
  - `sasl::scram`: the messages of a SCRAM exchange and the checks on them.
  - `otlp`, `metrics`, `exporter`, `config`, `tracing`: telemetry settings and data, the
    exporter settings that the environment chooses, and integer data points.
- `tests/` — tests of the library on concrete values.
- `app/` — what moves octets: the SCRAM exchange over a stream with a chosen digest, DNS
  and LDAP messages on streams, a buffered stream, the environment's exporter settings, the HTTP/1.1 read loop.
