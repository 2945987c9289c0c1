# dotter_actions

The operations that deploy dotfiles: creating, updating and deleting symbolic
links, rendered templates and plain copies. Each operation asks a file system
about the present state, decides what has to be done and has it done step by
step. Without force, nothing that the file system reports as changed is overwritten
or removed, but for a target that does not differ from the rendered template. A
symbolic link whose source is missing does not count as changed: deleting it needs
no force.

`src/` is the library, verified with Verus:

- `create.rs`, `update.rs`, `delete.rs`, `deploy.rs`: the operations. Beside each
  stands what it decides, as a plan that depends on the state found.
- `plan.rs`: plans, and what it means to carry one out up to the first failure.
- `filesystem.rs`: the file system, to be provided by the caller, and the history
  of calls that the contracts speak of.
- `runner.rs`: the operations behind one interface.
- `laws.rs`, `determined.rs`: what holds of the operations as a whole.
- `script.rs`: a file system that answers from a list.
- `config.rs`, `difference.rs`, `error.rs`: the data.
- `outside.rs`: what is taken for granted about `std::path` and `handlebars`.

`app/` puts log messages and `anyhow` errors around the operations and the runner.
