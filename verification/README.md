# fastdata_indexer

The verified core of a NEAR "fast data" indexer that writes to ScyllaDB.

- `src/` is the library, verified with Verus:
  - `chain`: 32-byte hashes and their base58 text, validated account ids, chain ids;
  - `json`: the JSON object of a call's arguments, read through serde_json;
  - `vote_memo`: parsing vote memos out of `vote` calls, their stored rows, order ids;
  - `kv`: key/value writes, their stored rows, and the latest write per key;
  - `batch`: the layout of the logged batches (rows, second table, progress row);
  - `indexer`: the block model and the vote memos found in a block;
  - `config`: the contract list setting, the start height, and when progress is saved;
  - `store`: keyspace names, progress rows and range query parameters;
  - `schema`: the CQL statements.
- `app/` is the memo indexer program: environment, ScyllaDB session, the block
  fetcher, and the conversion of fetched blocks into the library's model.
- `tests/` runs the library on concrete values.
