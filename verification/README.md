# mailtrap

A client library for the Mailtrap e-mail sending API, written in Verus.

- `src/` is the verified library: validated e-mail addresses (checked with
  `validator`) and media types (parsed with `mime`), attachments, bodies,
  the message type with its builder methods, a map of custom headers and
  variables in which each name occurs once, the API's response type, and
  the part of the client that parses the base URL (with `url`) and decides
  where a request goes and which headers it carries.
- `app/` holds what Verus does not check: serde forms of the message types
  (the JSON layout of the API), and the asynchronous sending of a message
  with `reqwest`.
- `tests/` exercises the library.
