# relay

A remote command relay: a gateway that agents on remote devices connect to
over WebSockets, and a REST API through which users list the devices and run
commands on them.

- `src/` is the verified library: the protocol messages and frame kinds
  (`protocol`), bearer token checks (`auth`), the gateway's device and command
  tables (`tables`, over `dashmap`), what the gateway does with each agent
  message and frame (`gateway`), the REST API's decisions (`api`), the agent's
  decisions and the result it reports for a command (`agent`), fresh ids
  (`ids`, over `uuid`), and properties that span several operations (`laws`).
- `app/` is one program with two subcommands: sockets, HTTP, JSON, the config
  file and child processes.
- `tests/` runs the library on concrete values.

## Running

The gateway and the agent are subcommands of one binary:

```bash
export RELAY_AGENT_TOKEN="your-agent-secret"
export RELAY_API_TOKEN="your-api-secret"
cargo run --release -- gateway            # listens on RELAY_PORT (default 8080)
cargo run --release -- agent --config agent.toml
```

The gateway serves the REST API (`GET /devices`, `POST /devices/<id>/exec`)
and the agents' WebSocket endpoint (`/ws`) on the one port given by
`RELAY_PORT` (or `--port`), default 8080. There are no separate WebSocket and
API ports.
