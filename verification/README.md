# wayland_mcp

A Wayland proxy that lets a program look at and use the windows of its clients.
Clients connect to the proxy's socket; the proxy passes their requests on to the
compositor and, on the way, follows surfaces, buffers, windows, outputs and colors.
From what it follows it answers requests of its own: list the windows, take a
screenshot, wait for the next frame, click, move the pointer, press keys, type text,
resize a window. A JavaScript console drives these over the Model Context Protocol.

## Layout

- `src/` is the library. Verus proves its functions against their contracts, but for
  the few that only call out of it (see the end).
  State is held in plain structures; each has a view, and what a step does to it is a
  spec function on views.
- `tests/` runs the library on concrete values.
- `app/` is the program: sockets, threads, the Vulkan and xkbcommon libraries, the
  conversion of colors in floating point, and the server of the console.

## Reading the library

| Modules | What they are about |
| --- | --- |
| `wire`, `framing`, `fds` | messages, how they are cut and put together, descriptors that come with them |
| `tables`, `registry`, `messages`, `decode` | the protocol's interfaces, and what a message means |
| `table`, `resource_map`, `text`, `json` | small things that the others use |
| `surface`, `tracker`, `color`, `dmabuf`, `capture`, `picture` | surfaces, buffers, their pixels and colors, pictures of them |
| `windows`, `snapshot`, `frames`, `desktop` | windows, and what callers are told of them |
| `globals`, `feedback`, `relay`, `session`, `ingest`, `server`, `clients` | a client's connection from its first message to its last |
| `input`, `raw_input`, `keymap` | injected input |
| `launch`, `artifact`, `console`, `sync` | starting up, files that were made, the console, explicit synchronization |
| `order` | what holds of surfaces and windows whatever a client does |

File descriptors are numbers here, under which the program keeps the open files.
Times are milliseconds that the caller passes in. Where a request needs a file to be
read or written, it is done in two steps, and the second takes what was read.

What is trusted rather than proved is marked `external_body` or
`assume_specification`, and says so: calls into the crates `png`, `image`, `base64`
and `serde_json`, and a few functions of the standard library.
