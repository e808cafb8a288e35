# ever-elect

A helper for Tycho validator elections. It decides what to stake, when to wait and which message
comes next; the decisions are proved with Verus.

- `src/` is the library. It holds the command line, paths, token amounts, the configuration and
  its checks, the setup and its questions, the unit file of the user service, the selection of DePool
  rounds, and the procedures of an iteration. A procedure is a value that says what is due: whoever
  runs it does that work, hands back an event and gets the next value.
- `app/` is the program around it: files, prompts, signals, the network.
- `tests/` runs the library on concrete values.

An iteration goes through one of two cycles. The managed cycle (`managed`, `upkeep`) is for live
runs: it checks the wallet before it spends, keeps a DePool and its proxies funded, and moves the
DePool on until a round stands for the election. The direct cycle (`direct`) acts with what is
there; with `send` off it submits nothing, which `iteration::law_dry_run_submits_nothing` states.

`ever-elect init` gives the configuration to the folder that it is run from, unless a file is named
or another folder is typed (`init::law_current_folder_owns_config`).

The public proof functions named `law_...` state what holds of the library as a whole.
