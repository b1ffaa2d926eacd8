# feverthoth

The core logic of the FeverThoth desktop IDE, written in Verus and proved
against its contracts.

- `src/` is the verified library: permissions and risk tiers, model routing,
  context assembly, the seven-step agent pipeline as a state machine over
  execution records, the decoding of model replies, git porcelain parsing,
  language-server framing and message sorting, MCP and provider
  configuration, the provider registry, the audit log and secret redaction,
  workspaces (recent list, directory listing order) and settings defaults.
  Calls into `serde_json`, `uuid`, `chrono`, `base64` and `std` that the logic
  needs stand behind small trusted wrappers whose contracts say what they
  claim of the outside code.
- `tests/` runs the library on concrete values.
- `app/` is the application around it: it talks to model servers, language
  servers, git, terminals and the file system, and drives the pipeline one
  step at a time through the library.

## Tables held in vectors

Where the application keeps a table by name — the context sources by kind,
the pipeline's executions by id, the built-in language servers, the MCP
providers, the provider registry, the settings' per-provider entries and
extra members, and an MCP provider's environment — the library holds it as a
`Vec` of pairs with a spec view (a map, or a lookup that the contracts use)
and, where it matters, an invariant that no key occurs twice. vstd specifies
`HashMap` only as far as keys whose equality Verus can follow; with `String`
keys (or keys of this library's own types, whose derived `Eq` and `Hash`
Verus does not read) none of the facts the contracts need — what a lookup
gives back after an insert or a removal — can be proved. The vectors keep
those facts provable; where the application iterated a `HashMap`, whose order
is unspecified, the vector's order is one such order.
