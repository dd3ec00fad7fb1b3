# rig_surrealdb

Vector search on SurrealDB, with the statements, the filters and the course of every operation
verified by Verus.

- `src/` is the library. `filter` writes filter expressions, `statement` the search statement,
  `distance` what depends on the distance mode, and `decimal` numerals. `store` begins searches
  and insertions; `search` and `insertion` say what is to be done next and what comes of each
  outcome; `record` holds the rows. `grouping`, `whole_search` and `whole_insertion` state
  what holds of filters, searches and insertions as a whole. `surreal` and `json` declare
  what is taken from `surrealdb` and `serde_json` without proof.
- `app/` performs the outside work, embedding texts and talking to the database, and implements
  the Rig traits.
- `tests/` runs the library.

Scores and vectors are type parameters of the library; `app/` uses `f64` and `Vec<f64>`.
