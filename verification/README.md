# infrastructure

The infrastructure layer of a local LLM gateway, as a verified library.

- `src/` — the library, verified with Verus:
  - `config_acl` — checks of a raw gateway configuration (workflow index,
    routes, header rules, rule graph, WebAssembly plugin grants), with laws
    on what an accepted configuration guarantees;
  - `gateway_config` — the configuration model, the migration of legacy
    rule graphs into the workflow index, the loaded workflow set;
  - `plugin_registry` — plugin manifests, where plugin files are found, the
    artifact cache and the duplicate-id check of the registry;
  - `plugins` — the decision logic of the node plugins (condition
    evaluator, intent classifier, policy router, header mutations, model
    selection, log and rewrite steps, code runner source preparation) and
    `${..}` template rendering;
  - `upstream` — which headers are forwarded and the upstream URL;
  - `text`, `rewrite`, `sorted_pairs`, `checks` — string operations and
    ordered string maps with their specifications.
- `app/` — ordinary Rust around the library: TOML/JSON (de)serialisation,
  file and network I/O, `wasmtime` plugin loading, QuickJS evaluation and
  request forwarding.
- `tests/` — tests of the library.

## Not in the library

Some parts of the gateway's infrastructure layer rest on two sibling crates
of the workspace, `domain` and `application`, which are not part of this
project. They are left out:

- the gateway-side rule graph validation (`validate_config`,
  `validate_rule_graph` and its per-node checks) and the mapping of a
  configuration into the validation input, which delegate every check to
  `application`;
- the mapping of a checked configuration into the `domain` catalog and
  workflow index (`map_gateway_catalog`, `map_workflow_index`), so
  `map_gateway_config` states the configuration checks only and does not
  refuse what the domain types would (such as a model naming an unknown
  provider);
- loading and saving whole configurations and workflow sets (`load_config`,
  `load_workflow_set`, `save_config_atomic` and the runtime state built from
  them).

The plugins' WebAssembly guest bindings and the raw memory exports of the
code runner are not reproduced either: `app/` runs the plugins' verified
logic directly.
