# pekoms

A small parser combinator library, verified with Verus.

A parser is anything that implements `Parser<I>`: it takes an input and
either fails with an error or returns an output with the residual input.
Every function or closure `Fn(I) -> Result<(O, I), E>` is a parser.

Each parser is specified by two spec functions: `parse_requires(input)`, the
inputs it may be run on, and `parse_ensures(input, res)`, the results it may
give. Every combinator states its own pair exactly in terms of those of its
parts, and its `parse` is proved against them.

Layout of `src/`:

- `parser.rs`: the `Parser` trait, its implementation for functions and
  closures, the adapters `map`, `and_then` and `map_err`, and the helper
  predicates on clones and determinism.
- `combinators/sequential.rs`: tuples of up to 26 parsers run in sequence.
- `combinators/alt.rs`: `alt`, the ordered choice over tuples of up to 26
  parsers; the first success wins.
- `combinators/branch.rs`: `branch`, an ordered choice whose parts may stop
  the search with `Err(Some(e))`.
- `combinators/basics.rs`: `optional`.
- `combinators/iter.rs`: `ParseIter`, which runs a parser on what it leaves
  over, and the spec of such runs; `combinators/iter/vector.rs`: `star`,
  `plus`, `sep_list` and `sep_list_plus`.
- `err.rs`: `AltErr`.

Besides the contracts, the library proves that every combinator keeps
parsers deterministic; that `plus(p)` is `p` followed by `star(p)`; that
`sep_list` is `star` of an item followed by an optional separator, keeping
the items; that `sep_list_plus` is `sep_list` with a minimum of one match;
that mapping with the identity changes nothing and mapping twice is mapping
with the composition; and that `and_then` with a function that never fails
is `map`.
