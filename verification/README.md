# k8s-csi-xetfs

A Kubernetes CSI node plugin (`csi.xethub.xetdata.com`) that mounts XetHub
repositories into pods as read-only ephemeral volumes.

- `src/` is the library, verified with Verus: the volume read out of a publish
  request (`volume`), the registry of published volumes and the decisions taken
  around each mount and unmount (`driver`), the Node and Identity services
  (`node`, `identity`), the `git-xet` and `umount` command lines (`mount`),
  status and error values (`status`, `error`), and the properties that span
  several requests (`laws`).
- `app/` is the process around it: argument parsing, logging, the child
  processes that mount and unmount, and the gRPC server on a Unix socket.
- `tests/` exercises the library on concrete requests.

## Behaviour

- A publish request needs `repo` and `commit` in its volume context; `user`
  and `pat` in its secrets, and `cas` in its volume context, are optional. A
  volume without id, target path, repository or commit is refused with
  `InvalidArgument`.
- A repeat of a publish request for a volume that is already published
  succeeds without mounting again; another volume under a published id is
  refused with `AlreadyExists`. A failed mount registers nothing.
- Unpublishing unmounts the path that the volume was published at; an unknown
  volume id is answered `NotFound`, and a failed unmount keeps the volume.
- Staging, volume statistics and expansion are not supported.
- Volumes and mount commands have no `Debug` form, so user names and access
  tokens are never printed.
- Publishing and unpublishing are decided in two steps around the mount or
  unmount. Finishing a publish checks the registry again, so a registered
  volume is never replaced, whatever order the steps of several requests run
  in; the process also holds the node service exclusively from the first step
  to the second, so that a volume id is mounted at most once.

## Limits

- The CSI gRPC services are generated from `csi.proto`, which this crate does
  not hold, so the process registers no service on its socket.
- The plugin's version is the constant `VENDOR_VERSION`, kept equal to the
  package version by hand.
