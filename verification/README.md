# runyte

The editing core of the Runyte editor as a verified library: character-offset
movement over a document, the selection models of its two key grammars
(Runyte's own and Vim's), and the state machines that own input — the command
prompt, typed confirmations, action menus, the file picker and resource
finder, choice lists, plugin input surfaces and their validation, the
approvals for provider-backed documents (remote overwrite and reload),
application filesystem plans under review, the language-server workspace
permission and server lifecycle, applying a language server's edits to a
document, and parent-terminal waits.

- `src/` is the library. Every function states its behaviour in `requires` /
  `ensures` over mathematical models (`Seq`, `Map`, `int`) and is proved by
  Verus; the laws that span several functions are public proof functions.
- `tests/` runs the library on concrete values.
- `app/` is the host-side glue: the clock and the routing of frontend events.

Whatever needs the filesystem, a clipboard, a language server or the screen is
done by the host: the library takes what such a call answered as a plain value
and says, in its result, what the host is to do next.
