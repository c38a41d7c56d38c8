# chaser_resolverr

A resolver with a FlareSolverr-compatible HTTP API (`/v1`, `/health`, `/metrics`, `/`): it solves
Cloudflare challenges in a real browser and hands out the page, its cookies and its user agent.

## Layout

- `src/` is the library, verified with Verus. It holds every decision of the server. It
  reads the clock and draws random values, and does no other I/O.
  - `flaresolverr`: requests, answers, the record of the fetches
  - `fetcher`: a fetch, from one call into the browser to the next
  - `session`, `cookies`: what is kept between requests, and for how long
  - `cf`: the browser's configuration, launch and life; the wait for a clearance; where to click
  - `chaser`, `models`, `error`: what passes between the server and browser work
  - `config`, `clock`, `logging`, `metrics`, `text`: settings, time, log lines, counters, strings
- `app/` is the program around it: HTTP, the browser driver, the session files.
- `tests/` run the library.

The library never waits. Where the program has to act, a function of the library says what to do
next (`FetchStep`, `ClearanceAction`, `V1Action`), the program does it, and hands the outcome back.

What depends on the time is decided by functions that take the time and have exact contracts
(`begin_at`, `is_expired_at`, `save_at` and the like). The functions that read the clock call them.
