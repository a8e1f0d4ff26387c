# bing2bing

The protocol logic of a peer-to-peer chat network, verified with Verus.

`src/` is the library:

- `frame`, `parser`: the frames peers exchange and reading their parts;
- `cmd/*`, `command`: the commands, how each travels in a frame, and
  recognizing the command a frame carries (with round-trip laws);
- `server`: what a peer does with each incoming command (forwarding,
  answering pings, passing whispers on, dropping duplicates), what goes out for
  each request of its client, registering with the tracker and announcing;
- `client`, `message`: the requests a user's client makes;
- `ui`, `cli`: what each line typed in the text interface asks for, and the
  lines it prints;
- `util`: sequence numbers, processed commands and known routes;
- `text`, `payload`: characters, decimal numbers and byte payloads.

`app/` is the command-line peer around it: TCP connections (one JSON frame
per line), channels between client and server, the announce timer, files
written by extensions, and the terminal.
