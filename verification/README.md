# flashblocks

A block builder for OP Stack chains that splits each block into
flashblocks — partial blocks published every few hundred milliseconds over a
WebSocket — with optional flashtestations (TEE registration and block builder
proofs signed by a TEE key).

The library in `src/` is verified with Verus:

- `limits`: how the time left in a payload job is partitioned into
  flashblocks, and the deadline and gas limit of each one;
- `stop`: when the flashblock loop of a job ends;
- `state`: flashblock numbering and the target number of flashblocks;
- `publish`: flashblock indexes, spans, barriers and the timing of jobs and
  flashblocks, and why the flashblocks of a job carry its transactions in
  order, each once;
- `websocket`: how long the WebSocket listener and each subscription live;
- `executor`, `service`, `step`: the flashtestations protocol as a state
  machine over contract calls, the block content hash, and the prologue step;
- `signer`, `attestation`, `crypto`, `hex`, `text`: keys, report data, hashes
  and hex text;
- `args`, `pipeline`, `watch`: flashblocks settings, the shape of the
  pipeline, and the flashblocks watcher's reports.

`app/` is the node program around it (command line, node launch, WebSocket
transport, contract calls on the payload, key files, HTTP attestation
requests). `tests/` exercises the library.
