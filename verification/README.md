# hace-soul-orch

The soul orchestrator: routes a prompt to souls, has the brain they share reason
for each in turn, and merges their answers. The answer with the highest
confidence gives the merged output.

The library in `src/` is verified with Verus. It holds every decision of a run and
does no work of its own: `SoulOrchestrator::process` starts a run, and each step
either asks one service for one thing or says what the run came to. The caller
hands the reply to `SoulOrchestrator::resume`.

| file | what it holds |
| --- | --- |
| `orchestrator.rs` | the steps of a run and their contracts |
| `laws.rs` | what holds of every run, whatever the services reply |
| `run.rs` | where a run stands between two steps |
| `merge.rs` | the merged output, and why there is exactly one |
| `score.rs` | scores as IEEE 754 bit patterns, and their order |
| `config.rs` | limits, and the souls they leave |
| `services.rs` | what the services are asked and what they reply |
| `prompt.rs`, `error.rs` | what comes in and what goes out |
| `json.rs` | what is taken on trust of `serde_json` |

`app/` attaches the services (authority, router, hooks, registry, memory, brain).
`tests/` runs the library against services of its own.
