# tetthys-auth

A minimal, request-scoped authentication core, verified with Verus.

It resolves the current user id of a request (once), optionally loads the
user record (once), signs users in and out through a session, and answers
role and permission questions.

## Layout

- `src/` — the verified library.
  - `engine.rs`: the per-request engine. Each operation (`user_id`, `user`,
    sign-in/out) is a sequence of decisions separated by calls to the
    user-id provider, the user loader and the session; the engine makes the
    decisions and the caller performs the calls (sign-in and sign-out name
    the one session call to make). The whole operations are described by
    `user_id_op`, `user_op`, `require_op` and `session_op`, and the laws at
    the end of the file (caching, invalidation, sign-in, loader, why
    `require` fails) are proved over them. `Unauthenticated` means that
    nobody is signed in; a signed-in request without a user record gets
    `UserNotFound` or `MissingLoader`.
  - `context.rs`, `helpers.rs`, `provider/`, `session.rs`, `accessor.rs`:
    the synchronous context API (a provider plus its cached answer, and the
    `auth_*` helpers).
  - `authorizable.rs`, `authenticatable.rs`, `interfaces.rs`: the user-side
    traits and the default policy (a permission, or the `admin` role).
  - `providers.rs`, `scope.rs`, `facade.rs`: the fixed user-id provider,
    the steps of a chain of user-id providers (`start`, `step`), engine
    lookup, and the first decision of the request helpers.
- `app/` — the asynchronous shell: the awaited provider/loader/session
  traits, the shared `RequestEngine` that drives the verified engine, the
  thread-local scope, the async `auth_*` helpers and the Leptos + Axum SSR
  adapters.
- `tests/` — tests of the library on concrete values.
