# gladiators_db

Storage layer of the debate arena: settings, profiles, discussion history and
its search, persona memories, usage periods and license counters, kept in
SQLite.

## Layout

- `src/` — the verified library (Verus). The storage layer's decisions on
  plain values are functions here with contracts (the SQL statements, and the
  values holding floats, stay in `app/`):
  - `rolling_period` — monthly usage periods: month arithmetic with clamping,
    rollover to the period containing today, `YYYY-MM-DD` parsing/formatting.
  - `settings` — the key/value settings table read into `AppSettings` and
    written back, user saves that keep the server-owned counters, period resets.
  - `history` — the Tavily usage history with an expired period appended.
  - `search`, `tags` — the FTS5 query, the case-insensitive fallback scan, the
    normal form of tags and their JSON column.
  - `memory` — which recaps become persona memories, and the recall order
    (topic matches first, recency after, bounded by the limit).
  - `license` — the license counters in the settings table.
  - `schema` — which column migrations an existing database still needs.
  - `discussion` — message kinds as stored, the text indexed for search.
  - `seed` — the built-in profile catalogue.
  - `text` — whitespace, trimming, word splitting and decimal text, with
    their specifications.
- `app/` — the async SQLite calls, the serde models, BM25 scoring and the
  other floating-point values; it calls the library for every decision.
- `tests/` — tests of the library on concrete values.
