# config_agent

The decision logic of a device configuration agent, verified with Verus.

The agent keeps a device's config instances in the state its backend asks for: it
pulls the instances, writes or deletes their files in a deployment directory, and
pushes the resulting statuses back. This crate holds the parts of that work that
decide something, each with a contract that Verus proves:

- `deploy`: the state machine of one config instance (`fsm`), the rollout that
  removes old instances and deploys new ones with rollback when a deployment fails
  (`filesys`), and the apply loop that drives instances to their targets (`apply`);
- `cache`: the key/value cache of the agent's records, with reads, writes, searches
  and pruning by last access;
- `sync`: sorting the backend's instances against the cache, storing new ones and new
  targets, the updates to push, and the backoff of the sync loop;
- `http`, `mqtt`, `storage`: the backend's query strings, the MQTT topics and options,
  and the layout of the agent's files;
- `models`, `services`, `errors`: the records the agent keeps, what its local services
  answer, and how every error is classified;
- `server`: which handler a request to the local socket reaches, and the answer of
  the liveness check (`GET /v1/test` answers `{"server":"miru-config-agent","status":"ok"}`).

Work with the outside world is left to the caller: `app/` reads and writes the files,
runs the MQTT connection and the socket server, and drives the rollouts, one file
operation at a time.
Instants are milliseconds since the epoch throughout. The library never reads the
clock or draws random numbers: every function that depends on the time takes the
instant as an argument, and made-up identifiers take the UUID text the caller drew.
