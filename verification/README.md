# tentrackule

A Discord bot that tracks League of Legends players and announces each new
game of theirs in the servers that follow them, as a rendered match card (or a
text embed when the renderer is unavailable).

## Layout

- `src/` — the library, verified with Verus: configuration, Riot routing and
  URLs, match and league types, LP differences, the match-card view-model and
  its HTML, the performance grade, Data Dragon tables, the image-cache policy,
  the poller's decisions and the command replies.
- `app/` — the program around it: environment, logging, SQLite, the Riot HTTP
  client and its rate limiter, Discord commands, the polling loop, image
  fetching and the call to the HTML renderer.
- `tests/` — tests of the library.

The card's decimal texts (short totals, KDA, CS per minute) print the
double-precision value the division produces, modelled exactly with integers
(`src/float.rs`); percentages and the grade score are computed from exact
ratios.
