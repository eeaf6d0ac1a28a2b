# mona_core damage compositions

A verified library that assembles the compositions behind a character's damage,
heal and shield values: for each quantity (attack, defense, HP, elemental
mastery, their multipliers, flat extra damage, damage bonus, critical rate and
damage, defense and resistance reductions, reaction bonuses), the amount that
each source contributes. The amounts come from an attribute graph and from the
extra amounts recorded in a `ComplicatedDamageBuilder`.

All quantities are fixed-point integers (`composition::UNIT` is 1.0).

- `src/composition.rs`: `Composition`, a map from source to amount, with its
  key-wise merge and sum.
- `src/attribute_graph.rs`, `src/attribute_name.rs`, `src/element.rs`: the
  attributes a graph records and how a hit's element and skill select them.
- `src/reaction.rs`: the bonus that elemental mastery gives to reactions.
- `src/builder.rs`: the builder, its adders and the composition of each quantity.
- `src/analysis.rs`: the compositions of a hit, a heal or a shield, the element
  after infusion and the reactions that apply.
- `app/lib.rs`: the floating-point damage, heal and shield formulas over the
  sums of those compositions.
