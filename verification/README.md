# post_push_party

Throw a little party every time you push code, earn party points for the
commits you push, and spend them on mini-games and packs.

## Layout

- `src/` is the verified library (Verus): the clock and day arithmetic, the
  bonus tracks and their tiers, reading `git` output and deciding which refs
  were pushed and which commits are new, recording pushes, installing the
  hook (the decisions), the lines the party prints, packs, rarities, chance
  upgrades and point bundles, the simulated pushes of the dev commands, and
  the mini-games: snake's rules, scenes and screen text, treasure depths'
  run, shop, panels and scenes, stack's cuts (in half cells), perfect runs,
  scenes and screen text.
- `app/` is the `party` binary around it: the command line, running `git`
  and `jj`, the file system, the state file, the terminal loops of the games,
  and what works in floating point (the world's noise, fades, the stack bar's
  sliding position and colors, the fireworks party). The dev commands (`cheat`, `push`, `reset`) are
  hidden subcommands.
- `tests/` runs the library on concrete values.
