# stackable-cockpit

The decisions behind local Kubernetes clusters, stacks and file transfers, verified with Verus.

Nothing in `src/` runs a command, opens a file or sends a request. A procedure, such as the
creation of a kind cluster, is a value: `action` says what to do next, `handle` takes the answer,
and `outcome` tells how it ended. What each answer leads to is stated as a contract; what holds of
whole procedures is proved in the `laws` modules, and what holds of whole lists of manifests in
`list_laws`.

- `src/engine/`: local clusters that are run by kind or by minikube
- `src/platform/`: stacks, their prerequisites, releases and manifests
- `src/xfer/`: files from this machine, from a cache or from a remote
- `src/outside.rs`: everything that is relied upon without proof
- `tests/`: the library on concrete values
- `app/`: performs the actions
