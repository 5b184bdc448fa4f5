# markov_simulator

A Markov chain simulator driven by a small model specification language.
A specification names the kind of chain (`dtmc` or `ctmc`), defines
variables, declares transitions between named states, and gives initial
probabilities. A state name starts with a letter and a variable
with `$`; both go on with letters, digits and `_`. Numbers are ASCII digits
with an optional fraction:

```
dtmc

def:
    $p = 0.5

model:
    node_a -> ($p) node_b, (1 - $p) node_a
    node_b -> (1) node_b

init:
    node_a = 1
```

## Layout

- `src/` is the verified library (Verus):
  - `token.rs`, `scanner.rs`: the scanner, from characters to tokens;
  - `parser.rs`: the parser, from tokens to the three sections;
  - `expression.rs`, `command.rs`: expressions and the statements of each
    section, and what running them does;
  - `tables.rs`, `simulator.rs`, `generator.rs`: the variables, states,
    transitions and initial values that a specification defines;
  - `errors.rs`: the errors and their messages;
  - `text.rs`: characters, decimal numerals, and the calls into `char` and
    `String`;
  - `laws.rs`: properties that span several functions.
  Numbers are kept as the arithmetic over decimal numerals that makes them;
  their floating-point values are computed where the chain is built.
- `app/` builds the transition matrix with `ndarray`, steps the chain with
  `rand`/`rand_distr`, and takes matrix exponentials with `scirs2-linalg`:
  all of it floating-point work.
- `tests/` runs the library on concrete specifications.
