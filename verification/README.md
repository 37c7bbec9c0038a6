# wet_tweet_gpu

A small tweeting service with a terminal interface drawn on a character-cell
screen, written in Verus.

- `src/` is the verified library:
  - `gpu` — the character-cell screen: coloured cells, ANSI rendering, and
    strings laid over the cells (`WebShowGPU`).
  - `tweeter` — users, tweets and levels (`types`), and the rules on them
    (`rules`): passwords (bcrypt), promotion and demotion, writing, editing,
    approving and deleting tweets; `nwt` checks user names.
  - `oid` — twelve-byte document identifiers and their hexadecimal text.
  - `menus` — the terminal's screens, numbered lists, menu choices and what
    each choice leads to.
  - `strutil` — string building, decimal numbers, trimming.
- `app/` is the terminal program: it reads input, prints what the library
  computes, and talks to MongoDB.
- `tests/` runs the library on concrete values.
