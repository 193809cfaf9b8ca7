# atri_bot

The logic of a QQ bot framework, written in Verus and proved against its
contracts.

- `src/` is the verified library: message chains and their elements, the
  conversion of a chain to and from the flat element list that goes over the
  wire, event sharing and listener settings, the plugin function table, the
  command line parser, configuration defaults, the decisions of the event
  handler and of the contact operations, and the games and chat replies of
  the `fun` module.
- `tests/` runs the library on concrete values.
- `app/` is a program around it that Verus does not see: it reads the log
  and login configuration files and serves the command line. Beside that it
  holds the conversions between the library's message types and those of the
  protocol crate, the token and Moli request formats, a listener builder and
  the routing of a group message through the handler's steps; these are not
  yet wired into a running protocol client, and no HTTP call is made.
