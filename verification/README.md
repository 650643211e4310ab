# miniproxee

A small TCP proxy. `src/` is the verified library: HTTP/1.1 detection from a
stream's first bytes, round-robin choice of the upstream peer, the connection
permit of each connection, and the per-connection time budget. `app/` is the
program around it: the tokio listener, the `tower` services, the clock and
the sockets.
