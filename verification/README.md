# bubblebox

A Linux sandboxing library whose logic is verified with Verus, and `bbx`, a
command-line front end.

## Layout

- `src/`: the verified library.
  - `paths`, `order`, `text`: guest paths, their order and byte-string helpers.
  - `policy/`: the sandbox policy — mount tree, namespaces, file descriptor
    policy — with the validity rules of each part.
  - `mounts`: what can be mounted and with which attributes.
  - `cgroups/`: cgroup policies, the interface-file writes they become, and
    the decisions of the systemd backend.
  - `command`: the command run in the sandbox.
  - `spawn/`: the plans the sandbox is built from — clone flags, the guest's
    setup steps, file descriptor, mount, user and time namespace plans — and
    the error report the guest sends the host.
  - `meowix/`: errno values, syscall errors, ids, capabilities, netlink
    messages, signal dispositions and file identities.
- `tests/`: tests of the library.
- `app/`: `bbx` itself: argument parsing, system calls, and carrying out the
  library's plans.
