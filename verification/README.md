# crucible

The verified core of Crucible, a platform that runs Spark and Flink jobs on
Kubernetes. The library holds the rules of the operator, proved with Verus:

- `state`: the job phase state machine and its laws (terminal phases are final,
  nothing returns to `Submitted`, active jobs can be killed).
- `store`: the object store bucket layout and ranged-read headers.
- `platform`, `platform_status`, `history_server`: the `CruciblePlatform`
  resource, how sub-reconciler outcomes become conditions and a phase (each
  component's condition depends on its own outcome only), and the History
  Server deployment plan.
- `spark`, `flink`, `spark_job`: the job resources, the Spark configuration
  injected into every job (user settings win), the driver pod (with its
  Volcano gang-scheduling annotations) and RBAC objects, how observations of
  the driver move a job through its phases (only along transitions the state
  machine allows), what a deleted job is left as, and how a driver failure
  is enriched with the health of Celeborn and Volcano.
- `string_map`: an ordered string map; each of its methods states that the
  keys are sorted (hence unique).
- `text`, `health`, `clock`, `error`, `objects`: supporting pieces.

`app/` holds the binaries (operator, API server, CLI): Kubernetes and S3
calls, the HTTP servers, and the serde/kube/clap types that mirror the
library's types.
