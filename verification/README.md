# n8n-rustful-operator

A Kubernetes operator that runs [n8n](https://n8n.io) from two custom
resources: `Single` (one standalone process) and `Cluster` (queue mode with
main, worker and webhook roles).

The decisions of the operator live in a library whose behaviour is stated in
`requires`/`ensures` contracts and proved with Verus:

- `src/validate.rs` — admission rules for both resources, with the exact
  refusal for every input.
- `src/env/` — the container environment: operator-managed entries, and the
  user-controlled layers (`src/env/precedence.rs` proves that a later layer
  wins and that every variable appears once).
- `src/labels.rs`, `src/builders/` — the Deployments, Services, Ingresses,
  HTTPRoutes, HPAs, PVCs and DestinationRules a resource owns, as plain models.
- `src/reconciler/` — what a reconcile pass plans for each resource, the status
  it reports, the encryption-key Secret, (`ops.rs`) the ordered list of
  writes and how a failure of each is treated, and (`pass.rs`) a whole pass:
  admission before any request, the writes, then the event and the status.

`app/` is the unverified shell around the library: the serde/kube copies of the
resource types, the rendering of models into Kubernetes objects, the
controllers that perform the listed writes, and the Prometheus metrics.
`app/main.rs crd` prints the custom resource definitions.
