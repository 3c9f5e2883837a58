# asq

The logic of `asq`, a command-line tool that asks large language models
questions, written in Verus with its contracts proved.

- `src/text.rs` — characters, Unicode whitespace, `trim`, `lines`, joining
  lines, endpoint URLs, with the laws that tie them together.
- `src/entities/` — messages, tool calls, roles, temperatures, proxies,
  prompt templates (front matter parsing and its laws), provider kinds.
- `src/providers/` — for each provider, the URL, the request body, the
  status that lets a reply be read, and what it makes of the reply; the
  tool-calling conversation of OpenAI-compatible providers as a state
  machine; the DuckDuckGo chat link. Tool definitions are carried as given:
  no tool is defined in this library.
- `src/controllers/` — the decisions of the commands.
- `app/` — the command line, terminal dialogs, configuration files and
  HTTP requests around the library.
- `tests/` — tests of the library on concrete values.
