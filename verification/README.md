# azalea_inventory_logic

The inventory, crafting and recipe-book logic of a Minecraft client, written
in Verus: every function in `src/` carries a contract that Verus proves.

## Layout

- `src/item.rs`: item kinds, component patches, item stacks, stack limits and
  crafting remainders.
- `src/menu.rs`: the menus (player inventory, chests, furnaces, ...), their
  slot layouts, and reading and writing slots.
- `src/click.rs`: the clicks a player can make and their protocol numbers.
- `src/operations.rs`: what a shift-click does in each menu, adding stacks to
  the player inventory, and taking a craft from a crafting grid.
- `src/conservation.rs`, `src/locality.rs`: laws of shift-clicks (no item is
  created or destroyed, only the named slots change, no slot overfills).
- `src/codec.rs`: varints and the recipe-book packets on the wire.
- `src/recipe.rs`: recipe displays, their equality and copies, what a recipe
  makes, and the group field of recipe-book entries.
- `src/recipe_book.rs`: the recipe book, kept in an `indexmap::IndexMap`
  behind a few trusted wrappers, with its generations and revisions.
- `src/crafting.rs`: the checks before and during a craft, where a crafted
  result can go, and a craft as a state machine fed with snapshots.
- `app/lib.rs`: the parts that live outside the verifier: the process-wide
  generation counter, packet handlers, error messages and the asynchronous
  craft driver.
- `tests/`: tests of the library on concrete values.
