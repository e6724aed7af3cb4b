# ravix

The core of the Ravix web framework, written in Verus. Every function in
`src/` carries a contract that Verus proves, except the few marked
`#[verifier::external_body]`: small wrappers around calls into `uuid`,
`chrono`, `bson`, `handlebars`, `validator` and std, whose contracts state
what those crates document and are trusted.

- `container` — the singleton dependency-injection container, keyed by
  `TypeId` and, for named bindings, by `TypeId` and name, with its laws
  (resolve after register, replacement, isolation of other keys and
  names), and the start-up check of required bindings.
- `app` — the application builder, CORS settings and their validation, the
  middleware chain and its ordering law.
- `response` — replies, status handling and the mapping of framework and
  injection errors to replies.
- `logger` — level filtering, classification routing and the logger
  configuration builder.
- `apm`, `writer` — transaction and span bookkeeping (end-once records,
  span nesting), record stamping and the batched flushing of the writer.
- `inject`, `routes`, `expand` — the `#[injectable]` and `#[controller]`
  attributes: parsing of `#[inject(...)]`, attribute classification,
  generated names, route paths, and the text of both expansions.
- `scaffold` — the decisions of `cargo rusta new`.
- `blog`, `posts`, `users` — the example blog: comments with likes (the
  comment service works over any `CommentRepository`; `CommentStore` is
  the in-memory one), posts, users, their validation rules and
  controllers.
- `text`, `sys` — string helpers, and the calls into `uuid` and `chrono`.

`app/` holds what Verus does not see: the axum server, the background
writers of the logger and the APM, the reading of attribute input with
`syn`, the MongoDB collection of the example,
the command line of the scaffolding tool and the example server.
