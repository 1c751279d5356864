# mac_host_commands

Host tooling for a macOS workstation that works with a remote Proxmox host:
installing sshpass, macFUSE and sshfs through Homebrew, and setting up
VeilKey (its client, the local vault with its LaunchAgent, the ssh tunnel to
VaultCenter and the shell profile).

Each procedure is a state machine in `src/`: it is handed the reply to its
last operation (`plan::Event`) and answers with the lines to print and the
next operation (`plan::Action`). Every step function is proved equal to a
transition function written as a specification, and the laws of each
procedure (it ends within a fixed number of replies, failures exit with code
1 after an error line, nothing is installed, opened, started or overwritten
unless the probe before it asked for it) are proved over runs of those
transition functions.

- `src/plan.rs`: operations, replies, runs, and the generic lemmas on runs.
- `src/text.rs`: whitespace trimming and substring search.
- `src/setup/`: dependency report, sshpass, macFUSE and sshfs, host bootstrap.
- `src/veil/`: names and file contents, report, client, local vault,
  tunnel, profile, VeilKey bootstrap.
- `app/`: the program, which reads the command line and performs the
  operations the procedures ask for.
- `tests/`: runs of every procedure on scripted replies.
