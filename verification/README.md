# rucc-cross

The target model of a C cross compiler, verified with Verus: target tuples read from any spelling and written back in one canonical spelling, the target table keyed on that spelling, the psABI descriptions and the one classifier that reads them, the data layouts derived from a tuple, and the house prose rules for markdown.

## Layout

- `src/text.rs`: characters, trimming, splitting and decimal numbers, with the specifications the rest is written against.
- `src/arch.rs`, `src/os.rs`, `src/abi.rs`: the fields of a tuple and what each one implies.
- `src/tuple.rs`: the tuple, its builder, and its canonical and LLVM spellings.
- `src/parse.rs`: reading a tuple, specified by `parse_spec`.
- `src/spelling.rs`: the proof that the canonical spelling settles, so it can key a cache.
- `src/table.rs`: the target table, with the proofs that every row reads back to itself and that its tiers are consistent.
- `src/psabi/`: ABI descriptions, the classifier that reads them, data layouts and record layout.
- `src/style.rs`: the prose rules on one file's text.
- `app/`: the command line tool, including the walk over markdown files.
- `tests/`: the behaviour on concrete values.
