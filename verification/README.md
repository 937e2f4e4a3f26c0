# rmqtt

The core of an MQTT broker that serves TCP, TLS, WebSocket and QUIC, written in Verus. The
library in `src/` decides and computes; every executable function in it carries a contract
that Verus proves. The crate in `app/` performs the I/O: it opens sockets, runs the tasks,
calls the codec and the plugins, and asks the library what to do next.

## Layout

| Modules | Subject |
| --- | --- |
| `builder`, `listener`, `proxy`, `addr` | configuration, listeners and their limits, the PROXY protocol |
| `quic`, `quic_session_store` | 0-RTT and the control stream, the store of TLS session tickets |
| `link`, `memory_link`, `quic_link`, `session_link` | links that carry packets on one flow or on many |
| `v5` | the handshake: from CONNECT to CONNACK, and the choice of the multistream mode |
| `route`, `subscription_binding` | which flow a transaction runs on, and which one a subscription leads to |
| `session`, `inbound`, `outbound`, `lifecycle` | the steps of a session: packets of the client, deliveries, the end of a connection |
| `publish`, `subscribe`, `offline`, `queue`, `default_session` | publications, subscriptions, sessions without a connection |
| `packet`, `topic`, `reason`, `identity`, `time`, `nonzero` | the values that the others share |

A step of a session or of a link is a function from its state and an event to what is to be
done next; `app/` does it and hands back what came of it. What holds across steps is stated by
public proof functions: those of sessions in `session_laws`, of QUIC links in `quic_link_laws`
and of the ticket store in `quic_session_store_laws`, the others beside the functions that
they are about.

Two functions of other crates are called from `src/`: `proxy_protocol::parse` in `proxy` and
`uuid::Uuid::new_v4` in `v5`. What is believed of them stands in the comments there.
