# test_game

The rules of a top-down survival game, written in Verus with their contracts
proved: cooldown timers, the damage that attacks deal and how it is counted,
prestige upgrades bought with coins, loot drops and pick-ups, the rounded
edges of the generated map and the texts that the screens show.

- `src/` is the verified library. Each module states its rules as spec
  functions and proves the executable code against them; the proof functions
  named `lemma_...` that are public state properties that hold across calls
  (for example that upgrades never create or destroy coins).
- `tests/` runs the library on concrete values.
- `app/` is a small command-line program around the library: it loads and
  saves the prestige stats as JSON, buys upgrades, and builds a noise map
  whose sand edges the library computes. Floating-point rules live there.
