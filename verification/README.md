# Mediagenerator

A self-service site where staff sign in with Microsoft Entra ID, describe what they
want, and get images, speech or short clips back from Azure AI Foundry.

The library holds the rules and proves them with Verus:

- `src/domain`: media types, prompts, job statuses, error codes, and the Norwegian
  texts that users see.
- `src/auth`: sign-in with OpenID Connect, what the session keeps, and the route
  guards.
- `src/providers`: which call goes to the generation service, when it is tried again,
  and what its answer means.
- `src/storage`: the SQL of each repository, and the time-limited links to private
  blobs.
- `src/text`, `src/clock.rs`, `src/encoding.rs`, `src/json.rs`, `src/http.rs`,
  `src/azure.rs`: what those modules are built from.

Each public function states in its contract what it returns. What holds of several
functions together is stated by the public proof functions whose names begin with
`law_`. Calls into other crates stand behind small functions marked
`#[verifier::external_body]`; the comment above each says what is believed of it.

`app` is ordinary Rust around the library: HTTP, PostgreSQL, the session store and
the environment.
