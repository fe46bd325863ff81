# control_plane

The decision logic of a trading node's external control plane, verified with Verus.

| Module | What it decides |
|---|---|
| `bus`, `ids`, `text` | messages, identifiers, decimal rendering |
| `topic` | the one Kafka topic that a node publishes to |
| `wire` | bus messages as Kafka records, and back |
| `tasks` | what the publish, stream and heartbeat tasks do next |
| `backing` | which tasks a backing starts, who gets its receiver, how it closes |
| `kafka_config` | Kafka configuration and the client settings it stands for |
| `json`, `config_document` | configuration documents and the backing they describe |
| `causality` | the side channel of causality records |
| `control_command` | what a control command resolves to |
| `overlay` | which strategies are vetoed, and until when |

Public proof functions named `law_..` state what holds across functions. Functions marked
`external_body`, and `assume_specification` items, are believed: each names the function of an
outside crate that it stands for.

`app/` runs these decisions: tokio tasks, Kafka clients, serialized forms and Python bindings.
