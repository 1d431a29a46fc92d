# ezraft

The rules of a small Raft node, verified with Verus.

`src/` is the verified library:

- `vote`, `log_id`, `acceptor`, `replication`: leader ids, votes, log ids and I/O ids
  with the partial and total orders that decide which is newer, and the laws of
  those orders.
- `quorum`, `voting`, `membership`: majority and joint quorums, an election round as
  a candidate sees it, and cluster memberships; quorums of one config intersect.
- `storage`, `entry`, `log_io`: what each storage operation does to the persisted
  metadata, which stored entries a read may ask for, and how applying entries and
  snapshots moves the state machine's applied state.
- `node`, `config`: a node's decisions around the Raft core (its id, where a refused
  write goes, how a join is answered and retried, how a failed send is classified)
  and the Raft timing derived from a heartbeat interval.
- `errors`, `error_source`, `storage_io`: the error types and their conversions;
  `error_source` is where the library calls `anyerror`.

`tests/` runs the library on concrete values. `app/` is the asynchronous shell: the
user-facing traits, the storage adapter, the HTTP transport and the join loop, which
call the library for every decision.
