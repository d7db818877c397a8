# posthog_flags

A verified library for managing PostHog feature flags, and the `posthog`
command around it.

The library (`src/`) does no I/O. Each operation of the client — making a
client from a configuration, listing flags, getting one by key, creating,
enabling, disabling and deleting one — is a state machine: it is advanced with
the reply to the HTTP request it last asked for, and answers with the next
request or with its result. A listing reads every page of the management API,
following each page's link to the next. The contracts state each step exactly, over the
views of the requests and replies.

- `text`: decimal rendering, trimming of trailing slashes, byte prefixes.
- `model`: flags, local evaluation entries, projects, the configuration.
- `json`: the JSON values that flags carry and the calls into `serde_json`.
- `error`: the client's errors and their messages.
- `http`: requests, replies, status lines, and the `Exchange` trait.
- `api`: the endpoints, request bodies and the client's operations.
- `cli`: the command-line grammar `posthog flags <COMMAND> [KEY]`.
- `report`: the table rows, flag details and report lines, and `run_flags`.
- `laws`: properties of the client as a whole.

`app/` holds the program: it reads the configuration file, sends the requests
with `reqwest`, reads the JSON bodies with `serde`, prints with `tabled`, and
lets `clap` show the help and the refusals of command lines that the library's
grammar does not take.
