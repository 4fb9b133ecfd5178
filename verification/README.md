# shardxl

Core logic of the ShardXL Minecraft launcher, verified with Verus.

- `src/` — the library: offline authentication and offline UUIDs (`auth`,
  `uuid`), the game directory layout (`paths`), reading the version manifest
  and version JSON (`json`, `manifest`), version lists and filtering
  (`versions`), Java detection (`java`), and the installation sequence with
  its failure messages (`install`). Every public function carries a contract;
  the `law_*` proof functions state properties that span several calls.
- `app/` — the bindings around it: the functions the Flutter front end calls,
  the C interface (`shardxl_*`), serializable copies of the records, and all
  network, file-system, environment and process work.
- `tests/` — tests of the library on concrete values.
