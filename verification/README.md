# fungi_transport

Byte channels, and the parts of them that are worth proving. The library under `src/`
decides and never waits: it is verified with Verus. A contract says what a function returns
for every input; where a queue decides, it says what the queue was asked, and what follows
from each of its answers. The program under `app/` waits: it drives the library on Tokio's
queues and clock and on Cap'n Proto RPC.

- `error`: the failures of channels and builders, and what an RPC error becomes.
- `queue`: Tokio's queues and reply slots, what tells that two handles belong together, and
  the outlet that logs what a queue was asked and offered.
- `mem`: channels in memory, with a limit, latency, a timeout and injected faults.
- `rpc`: channels and builders across an RPC stream: commands and replies, the serving
  pump, and how a connection with a spawned process ends.
- `testkit`: conformance checks that an implementation can be held to.
- `echo`: a backend that gives back what is sent to it.

`mem::laws`, `rpc::laws`, `rpc::lifecycle` and `testkit::laws` state what holds across
functions: that delivery in memory is first in, first out, and exact where it is confirmed;
that exactly as many best-effort sends as was asked for offer nothing to the queue, and that a
best-effort message enters it only where it was offered; that a message over the limit is
refused and leaves the channel usable; that an abandoned receive loses nothing; that a
listener accepts in the order of the builds; that outcomes are the same on both sides of an RPC
stream and are answered in order; that a connection lives as long as its last handle and a
spawned process is reaped; and what the verdict of a check means.

What Tokio and Cap'n Proto contribute is not proved. It stands in a few trusted
declarations, in `queue`, `error` and `rpc::wire`, each with the outside function that it
speaks of.

`extras/channel.capnp` describes what crosses the RPC stream.
