# forest_sync

Verified core of a Filecoin node's chain-sync networking and state API.

- `src/network_context.rs`: request numbering, the blocksync requests that
  chain sync sends, and how their replies (or a timeout) are read.
- `src/request_table.rs`: the table of requests waiting for a reply.
- `src/network_handler.rs`: where the network handler sends each event.
- `src/protocol.rs`: laws tying numbering, table and handler together.
- `src/sector.rs`: sector sizes and sector ids.
- `src/state_api.rs`: recent miner faults and message lookups.
- `app/`: the async plumbing (channels, timers, chain store) around them.
