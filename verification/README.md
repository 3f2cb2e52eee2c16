# qarax

The decision logic of the qarax control plane (virtual machines on Cloud
Hypervisor hosts), written in Verus with its contracts proved.

- `src/` — the library. Request checks and their error answers (`vm_ops`,
  `vm_create`, `storage`, `sandbox`, `backup`), what is sent to a node to
  create or change a VM (`vm_request`, `devices`), placement (`scheduling`,
  `ha`), address planning (`ipv4`, `cpu_list`), host deployment (`deploy`,
  `ansible`, `host_init`), webhooks (`hooks`) and the background jobs as
  state machines (`jobs`, `image_jobs`, `evacuation`, `ha`). Laws that relate
  several calls are public proof functions named `lemma_*`.
- `tests/` — tests run against the compiled library.
- `app/` — the program around the library: settings, JSON conversions, the
  floating-point resize capacity check, and the loops that carry out the
  jobs' steps.

Architecture names are normalised by a function the caller passes in
(`normalize_architecture`): `vm_create::resolve_create_request` and
`scheduling::vm_architecture` state their results in terms of what it
returns.
