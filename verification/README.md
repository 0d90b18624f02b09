# ripsaw

The core of an event-remapping expression language, verified with Verus.

- `src/parser`: the syntax tree (`ast`), syntactic equality (`syntax_eq`)
  with its laws (`shape`: positions do not count; `equivalence`: symmetry
  and transitivity), writing trees back out as program text (`source`),
  object literals ordered by key (`object`), and template strings.
- `src/value`: runtime values, their kinds, and reading and writing inside
  a value along a path (`crud`).
- `src/path`: paths into values.
- `src/compiler`: the evaluation context, runtime state, closure items and
  function descriptions.
- `src/stdlib`: `all`, `any`, `map` and `assert`, with their descriptions.
- `app/`: the command that prints the standard library's documentation as
  JSON.
- `tests/`: tests on concrete values.

Floats are held as their bit patterns; where text is written, the caller
supplies the function that formats a float.
