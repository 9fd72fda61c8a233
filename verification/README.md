# maigus

Verified rules logic for a Magic: The Gathering engine, written in Verus.
Every function of the library is verified against its contract, and the
properties that span several functions are stated and proved as proof
functions ("laws"). Where a player's decision maker answers a question, the
library states, in a verified function of the answer, what it makes of each
possible answer.

## Layout

- `ids`, `types`, `text`, `mana`: identifiers, card types and colors, text
  helpers, mana symbols, costs and pools.
- `card`, `statics`, `cards/`: printed characteristics, static abilities, and
  the card definitions with their abilities and effects as data.
- `game`, `game_laws`: the game state and moving objects between zones.
- `combat_state`, `combat_laws`, `combat_messages`: declaring attackers and
  blockers, damage assignment order, and the messages of combat errors.
- `cost`, `costs/`: total costs, optional costs, and the non-mana cost
  components (energy, exiling, milling).
- `executor`, `executor_laws`: carrying out effects (library searches,
  drawing, milling, losing life, imprint mana).
- `continuous`, `continuous_laws`: commanders, abilities granted by
  permanents, and anthems.
- `decision`, `decisions/`: decision contexts, specifications and the
  default answers used when no player decides.
- `oracle_text`, `export_args`, `card_input`: comparing and exporting oracle
  text, and building the parser input of a card record.

`tests/` runs the library on concrete games and cards.
