# linux_tools

A set of small tools for keeping a desktop Linux machine in shape, with their
decisions verified by Verus.

- `src/` is the verified library. Each tool's logic lives in a module of its
  own: `linux_setup` (an interactive package installer and desktop setup, with
  its package catalogue), `package_installer` (Flathub and Snap bookkeeping),
  `overview` (system facts read out of system files), `backup_dbs` (database
  backup retention), `backup_home`, `website_setup`, `image_resizer` and `sfs`
  (a disk usage scanner). The library does no I/O: it reads text handed to it
  and answers with values and with lists of `action::Action` steps.
- `action` describes those steps; `text`, `number` and `name_set` are the
  string, number and set utilities the modules share, with exact
  specifications.
- `app/` holds the programs: prompts, file and process I/O, and a runner that
  carries out the library's steps. Run it as `linux_tools <tool>`.
- `tests/` exercises the library on concrete inputs.
