# kantyna_laser

A party music queue: guests send song URLs from a web page, the service keeps
them in a queue and hands each one, in order, to the hook programs that play it.

- `src/` is the verified library (Verus): the queue and its laws, songs and their
  validation, enqueue request handling, error texts, URL checking, hook loading
  decisions, duration and endpoint text, and the web page's state machine.
- `app/` is the HTTP service around it (actix-web, tokio): request parsing,
  the player loop, and spawning the hook programs.
- The web page is a separate wasm program in the original. Its decisions (state
  machine, what to request and when, the texts it shows) are in `src/website.rs`;
  the page shell that renders them and performs the requests is not part of `app/`,
  which is the service alone.
- `tests/` runs the library on concrete values.
