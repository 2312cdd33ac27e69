# udp_over_tcp

UDP traffic in a TCP stream. Each datagram travels in the stream preceded by its
length as a 16 bit big endian integer.

Layout:

* `src/` — the verified library (Verus):
  * `framing` — the model of the stream format and its laws: framing then parsing
    gives the datagrams back, parsing loses and invents nothing, and decoding a
    stream chunk by chunk gives the same datagrams as decoding it whole.
  * `forward_traffic` — the header encoder, the frame splitter and the
    `TcpStreamDecoder` that reassembles datagrams from the bytes read off TCP.
  * `exponential_backoff`, `delay` — the backoff used between failed accepts.
  * `tcp2udp` — the server's decisions: the UDP bind address, the accept cooldown,
    and its error messages; `udp2tcp` — the client's error messages.
  * `tcp_options` — the socket option operations to perform, and their errors.
  * `logging`, `runtime` — log redaction and the choice of async runtime.
* `app/` — sockets, async tasks, command line parsing, logging and metrics, which
  call the library for every decision.
* `tests/` — tests of the library.
