# Magnolia

A Discord bot for a developer community: it hands out a forum-member role,
answers frequently asked questions, sends its own configuration on request and
manages per-user highlight patterns and channel scopes.

- `src/` is the verified library. It holds the command schemas
  (`config_command`, `devforum`, `faq`, `highlight`), the parsing of invoked
  command options into actions, the rendering of the highlight list, the
  routing of gateway events and commands (`dispatch`), the configuration the
  commands read (`settings`), the plain-data forms of Discord values
  (`interaction`) and decimal text handling (`text`). Every function carries a
  contract proved by Verus; laws that span functions are proof functions
  beside them.
- `app/` is the bot itself: gateway and HTTP I/O with twilight, the SQLite
  database, the YAML configuration file, and the conversion of the library's
  values to Discord's wire types.
- `tests/` runs the library on concrete values.
