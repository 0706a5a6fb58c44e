# codex_advisor

The advisor of a coding agent: a bounded, tool-free second opinion that the
active model can ask for, and the picker that chooses the advisor model.

- `src/` is the verified library.
  - `text.rs`: character-level text operations (cutting, joining, ASCII
    case-insensitive comparison, white space).
  - `protocol.rs`: conversation items, stream events and tool-call values.
  - `transcript.rs`: the bounded transcript of a conversation, with the laws
    that it stays within its bounds, keeps a history that fits, and ends with
    the latest item.
  - `advisor.rs`: the `ask_advisor` tool — its specification, argument and
    model checks, the advisor's request, the advice collected from the
    response stream, and the tool's output.
  - `call.rs`: one `ask_advisor` call as a state machine over the host's
    observations: checks before any request, and the activity always
    completed before the call is answered.
  - `tool_spec.rs`: JSON schemas and the judgment/advisor tool specification.
  - `fragments.rs`: the consultation and guidance fragments.
  - `advisor_popup.rs`: the advisor model picker and the `/advisor` command.
  - `resume_metadata.rs`: the resume metadata stored on a compaction.
- `app/` is the host around it: JSON argument parsing, `git status`, the
  response stream under a time limit and cancellation (driving the call
  machine), and the serialisable form of the resume metadata.
- `tests/` runs the library on concrete values.
