# obsidian_sync

Keeps every git repository found under a folder of Obsidian vaults in sync:
local changes are committed, the branch is pulled (a conflict is resolved by
keeping the local side, with both sides backed up) and pushed.

- `src/` is the library, verified with Verus. Each multi-step operation is a
  step machine (`sync_machine`, `lock`, `session::Requirements`,
  `system::GitCheck`, `menu`, `ops`): a step takes the answer to the previous
  request and gives the effects to carry out and the next request, with its
  transitions stated as spec functions. The laws proved over them are
  public proof functions beside the machines.
- `app/` is the program around the library: command-line parsing, running
  processes, files, the network probe, the spinner and the dialogs.
- `tests/` runs the library on concrete inputs.
