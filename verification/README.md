# broker_outer_api

The decisions behind a message broker's API to name servers and to other brokers,
verified with Verus: which requests to send, and what the responses mean.

- `src/` is the verified library. An operation of `BrokerOuterAPI` builds an
  `Invocation`, or a list of them; a second function reads the reply. Values that
  only a wire codec can compute (decoded headers and bodies, checksums, JSON text)
  are arguments of these functions; which header or body is decoded at all is decided
  here too.
- `app/` carries the invocations out: client, clock, name lookup, logging. The broker
  supplies the client and the codec through the traits of `app/ports.rs`.
- `tests/` runs the library, with real name lookups where they matter.

| module         | what it decides                                            |
|----------------|------------------------------------------------------------|
| `name_server`  | name server addresses from a list or from a domain         |
| `registration` | registering and withdrawing brokers, registering topics    |
| `queue_lock`   | locking and unlocking queues                               |
| `route`        | looking up the route of a topic                            |
| `send`         | sending a message to one broker                            |
| `pull`         | pulling messages from one broker                           |
| `laws`         | what holds of the requests as a whole                      |
| `command`, `codes`, `message`, `properties`, `text` | what the others are made of |
