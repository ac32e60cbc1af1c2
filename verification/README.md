# moq-relay-ietf

The decision logic of a Media-over-QUIC relay (draft 07), written in Verus
and proved against its contracts.

- `src/` is the verified library:
  - `coordinator_local`: the in-memory registry of local namespaces and
    tracks, with its laws (registration, unregistration, lookup, shutdown,
    release of registration handles: a namespace or track stays registered
    while any handle for it is held);
  - `setup`, `session`: the client's SETUP offer, role and version
    negotiation in the SETUP exchange, routing of received messages,
    streams and datagrams, the stream failure limit;
  - `consumer`: the order of steps in serving an announce (origin,
    registration, ANNOUNCE_OK, forwarding subscriptions);
  - `producer`: the order in which a subscribed track is looked for
    (local, remote through the API, upstream) and what ends the search;
  - `subscribed`, `announce`, `watch`, `message`, `track_status_requested`:
    the state shared by the two halves of a subscription or announcement,
    and the messages they send;
  - `serve`, `writer`, `ws_adapter`: track stream headers, subgroup
    failure limit and how serving subgroups ends, datagram fallback to streams, write progress, WebSocket
    priorities and datagrams;
  - `relay`, `remote`, `cache`: configuration of the relay, where a
    subscription is served from, the steps of subscribing through a remote
    relay and what they do to the cache of connections, connection
    liveness, the track cache of a remote connection (shared by repeat
    subscriptions, dropped when a subscription ends);
  - `drop_guard`: drop depth tracking.
- `app/` is the runtime around it: async traits and lock-protected shared
  state with drop handlers, the loops that drive the announce and remote
  subscription state machines, the global statistics sink, per-thread drop
  depth counters, the command line and the development web server.
- `tests/` exercises the library on concrete values.
