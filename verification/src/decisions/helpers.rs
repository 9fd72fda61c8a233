//! Reusable helper functions for common decision patterns.
//!
//! Each helper asks the decision maker and then settles the answer: an
//! answer that is missing or not allowed is replaced by a default. How the
//! answer is settled is a verified function of the answer, so every helper
//! is verified for every answer a decision maker may give.

use vstd::prelude::*;
use crate::ids::{ObjectId, PlayerId};
use crate::types::Color;
use crate::game::GameState;
use crate::decision::{DecisionMaker, FallbackStrategy};
use crate::decisions::context::{
    BooleanContext, ColorsContext, SelectObjectsContext, SelectOptionsContext, SelectableObject, SelectableOption,
};
use crate::decisions::specs::combat::name_of;

verus! {

/// The answer to a "may" question: the player's, or the fallback's
/// (yes only under `Accept`).
pub fn may_choice_outcome(answer: Option<bool>, fallback: FallbackStrategy) -> (b: bool)
    ensures
        b == match answer {
            Some(a) => a,
            None => fallback == FallbackStrategy::Accept,
        },
{
    match answer {
        Some(a) => a,
        None => fallback == FallbackStrategy::Accept,
    }
}

/// Ask a player whether to perform an optional "may" action.
///
/// Returns true if the player chooses to perform the action; without an
/// answer, the fallback decides (see `may_choice_outcome`).
pub fn ask_may_choice<D: DecisionMaker>(
    game: &GameState,
    dm: &mut D,
    player: PlayerId,
    source: ObjectId,
    description: &str,
    fallback: FallbackStrategy,
) -> (b: bool) {
    let ctx = BooleanContext::new(player, Some(source), description);
    let answer = dm.decide_boolean(game, &ctx);
    may_choice_outcome(answer, fallback)
}

/// The permanent sacrificed: none without legal permanents; else the first
/// one chosen if it is legal, else the first legal permanent.
pub fn sacrifice_outcome(legal_permanents: &[ObjectId], chosen: Option<Vec<ObjectId>>) -> (r: Option<ObjectId>)
    ensures
        legal_permanents@.len() == 0 ==> r is None,
        legal_permanents@.len() > 0 ==> r == Some(
            match chosen {
                Some(c) => if c@.len() > 0 && legal_permanents@.contains(c@[0]) {
                    c@[0]
                } else {
                    legal_permanents@[0]
                },
                None => legal_permanents@[0],
            },
        ),
{
    if legal_permanents.len() == 0 {
        return None;
    }
    match chosen {
        Some(c) => {
            if c.len() > 0 {
                let pick = c[0];
                let mut i: usize = 0;
                while i < legal_permanents.len()
                    invariant
                        i <= legal_permanents@.len(),
                        legal_permanents@.len() > 0,
                        c@.len() > 0,
                        chosen == Some(c),
                        pick == c@[0],
                        forall|k: int| 0 <= k < i ==> legal_permanents@[k] != pick,
                    decreases legal_permanents.len() - i,
                {
                    if legal_permanents[i] == pick {
                        proof {
                            assert(legal_permanents@[i as int] == pick);
                        }
                        return Some(pick);
                    }
                    i = i + 1;
                }
            }
            Some(legal_permanents[0])
        },
        None => Some(legal_permanents[0]),
    }
}

/// Ask a player to select a permanent to sacrifice from a list of legal options.
///
/// Returns `None` exactly when there is no legal permanent; otherwise a legal
/// permanent (the first one if the answer is missing or not legal).
pub fn ask_sacrifice<D: DecisionMaker>(
    game: &GameState,
    dm: &mut D,
    player: PlayerId,
    source: ObjectId,
    legal_permanents: &[ObjectId],
    description: &str,
) -> (r: Option<ObjectId>)
    ensures
        r is None <==> legal_permanents@.len() == 0,
        r matches Some(x) ==> legal_permanents@.contains(x),
{
    if legal_permanents.len() == 0 {
        return None;
    }
    let mut candidates: Vec<SelectableObject> = Vec::new();
    let mut i: usize = 0;
    while i < legal_permanents.len()
        invariant
            i <= legal_permanents@.len(),
        decreases legal_permanents.len() - i,
    {
        let id = legal_permanents[i];
        let name = name_of(game, id);
        candidates.push(SelectableObject::new(id, name.as_str()));
        i = i + 1;
    }
    let ctx = SelectObjectsContext::new(player, Some(source), description, candidates, 1, Some(1));
    let chosen = dm.decide_objects(game, &ctx);
    let r = sacrifice_outcome(legal_permanents, chosen);
    proof {
        if let Some(x) = r {
            if x == legal_permanents@[0] {
                assert(legal_permanents@[0] == x);
            }
        }
    }
    r
}

/// Whether `c` occurs in `colors`.
fn has_color(colors: &[Color], c: Color) -> (b: bool)
    ensures
        b == colors@.contains(c),
{
    let mut i: usize = 0;
    while i < colors.len()
        invariant
            i <= colors@.len(),
            forall|k: int| 0 <= k < i ==> colors@[k] != c,
        decreases colors.len() - i,
    {
        if colors[i] == c {
            return true;
        }
        i = i + 1;
    }
    false
}

/// The color chosen: the first color answered (or `default` without one),
/// replaced by `default` if the colors are restricted and it is not among them.
pub fn mana_color_outcome(available_colors: Option<&[Color]>, chosen: Option<Vec<Color>>, default: Color) -> (c:
    Color)
    ensures
        ({
            let pick = match chosen {
                Some(v) => if v@.len() > 0 { v@[0] } else { default },
                None => default,
            };
            c == match available_colors {
                Some(a) => if a@.contains(pick) { pick } else { default },
                None => pick,
            }
        }),
{
    let pick = match chosen {
        Some(v) => if v.len() > 0 { v[0] } else { default },
        None => default,
    };
    match available_colors {
        Some(a) => if has_color(a, pick) { pick } else { default },
        None => pick,
    }
}

/// Ask a player to choose a single mana color.
///
/// Used by mana abilities that can produce any one color (like Birds of Paradise)
/// or that need to select from a restricted set of colors (like commander identity).
/// The result is one of the available colors, or `default`.
pub fn ask_mana_color<D: DecisionMaker>(
    game: &GameState,
    dm: &mut D,
    player: PlayerId,
    source: ObjectId,
    available_colors: Option<&[Color]>,
    default: Color,
) -> (c: Color)
    ensures
        available_colors matches Some(a) ==> a@.contains(c) || c == default,
{
    let ctx = match available_colors {
        Some(colors) => {
            let mut v: Vec<Color> = Vec::new();
            let mut i: usize = 0;
            while i < colors.len()
                invariant
                    i <= colors@.len(),
                decreases colors.len() - i,
            {
                v.push(colors[i]);
                i = i + 1;
            }
            ColorsContext::restricted(player, Some(source), 1, true, v)
        },
        None => ColorsContext::any_color(player, Some(source), 1, true),
    };
    let chosen = dm.decide_colors(game, &ctx);
    mana_color_outcome(available_colors, chosen, default)
}

/// The option index taken: the first index answered if it is in range, else 0.
pub open spec fn one_index(num_options: usize, chosen: Option<Vec<usize>>) -> usize {
    match chosen {
        Some(v) => if v@.len() > 0 && v@[0] < num_options {
            v@[0]
        } else {
            0
        },
        None => 0,
    }
}

/// The option index taken: the first index answered if it is in range, else 0.
pub fn choose_one_index(num_options: usize, chosen: Option<Vec<usize>>) -> (i: usize)
    requires
        num_options > 0,
    ensures
        i == one_index(num_options, chosen),
        i < num_options,
{
    match chosen {
        Some(v) => if v.len() > 0 && v[0] < num_options { v[0] } else { 0 },
        None => 0,
    }
}

/// Shows options by their descriptions.
fn display_options<T>(options: &[(String, T)]) -> (r: Vec<SelectableOption>)
    ensures
        r@.len() == options@.len(),
        forall|i: int| 0 <= i < options@.len() ==> (#[trigger] r@[i]).index == i && r@[i].description@
            == options@[i].0@ && r@[i].legal,
{
    let mut r: Vec<SelectableOption> = Vec::new();
    let mut i: usize = 0;
    while i < options.len()
        invariant
            i <= options@.len(),
            r@.len() == i,
            forall|k: int| 0 <= k < i ==> (#[trigger] r@[k]).index == k && r@[k].description@ == options@[k].0@
                && r@[k].legal,
        decreases options.len() - i,
    {
        r.push(SelectableOption::new(i, options[i].0.as_str()));
        i = i + 1;
    }
    r
}

/// Whether `x` is a clone of the value of one of the options.
pub open spec fn is_option_value<T: Clone>(options: Seq<(String, T)>, x: T) -> bool {
    exists|j: int| 0 <= j < options.len() && cloned(options[j].1, x)
}

/// The value of the option taken for answer `chosen` (see `one_index`): a
/// clone of the value at the first index answered if it is in range, else of
/// the first option's value.
pub fn chosen_value<T: Clone>(options: &[(String, T)], chosen: Option<Vec<usize>>) -> (r: T)
    requires
        options@.len() > 0,
    ensures
        cloned(options@[one_index(options@.len() as usize, chosen) as int].1, r),
        is_option_value(options@, r),
{
    let i = choose_one_index(options.len(), chosen);
    let r = options[i].1.clone();
    assert(cloned(options@[i as int].1, r));
    r
}

/// Ask a player to choose a single option from a list of choices.
///
/// Returns a clone of the value of the chosen option; the first option's
/// value if the answer is missing or out of range. `options` must not be
/// empty.
pub fn ask_choose_one<T: Clone, D: DecisionMaker>(
    game: &GameState,
    dm: &mut D,
    player: PlayerId,
    source: ObjectId,
    options: &[(String, T)],
) -> (r: T)
    requires
        options@.len() > 0,
    ensures
        is_option_value(options@, r),
{
    let shown = display_options(options);
    let ctx = SelectOptionsContext::new(player, Some(source), "Choose one", shown, 1, 1);
    let chosen = dm.decide_options(game, &ctx);
    chosen_value(options, chosen)
}

/// The indices taken for a multiple choice: the answered indices that are in
/// range, in order, if there are between `min` and `max` of them; otherwise
/// `0..min`.
pub open spec fn in_range(chosen: Seq<usize>, num_options: usize) -> Seq<usize>
    decreases chosen.len(),
{
    if chosen.len() == 0 {
        Seq::empty()
    } else {
        let rest = in_range(chosen.drop_last(), num_options);
        if chosen.last() < num_options {
            rest.push(chosen.last())
        } else {
            rest
        }
    }
}

/// Every index kept by `in_range` is in range.
pub proof fn lemma_in_range_bounded(chosen: Seq<usize>, num_options: usize)
    ensures
        forall|k: int| 0 <= k < in_range(chosen, num_options).len() ==> #[trigger] in_range(chosen, num_options)[k]
            < num_options,
    decreases chosen.len(),
{
    if chosen.len() > 0 {
        lemma_in_range_bounded(chosen.drop_last(), num_options);
        let rest = in_range(chosen.drop_last(), num_options);
        assert forall|k: int| 0 <= k < in_range(chosen, num_options).len() implies #[trigger] in_range(
            chosen,
            num_options,
        )[k] < num_options by {
            if k < rest.len() {
                assert(in_range(chosen, num_options)[k] == rest[k]);
            }
        }
    }
}

/// The first `n` indices.
pub open spec fn first_indices(n: usize) -> Seq<usize> {
    Seq::new(n as nat, |i: int| i as usize)
}

/// The indices taken for a multiple choice: the answered indices that are in
/// range, in order, if there are between `min` and `max` of them; otherwise
/// `0..min`.
pub open spec fn multiple_indices(num_options: usize, chosen: Option<Vec<usize>>, min: usize, max: usize) -> Seq<
    usize,
> {
    let valid = match chosen {
        Some(v) => in_range(v@, num_options),
        None => Seq::<usize>::empty(),
    };
    if min <= valid.len() <= max {
        valid
    } else {
        first_indices(min)
    }
}

/// The indices taken for a multiple choice (see `multiple_indices`).
pub fn choose_multiple_indices(num_options: usize, chosen: Option<Vec<usize>>, min: usize, max: usize) -> (r: Vec<
    usize,
>)
    requires
        min <= max,
        min <= num_options,
    ensures
        r@ == multiple_indices(num_options, chosen, min, max),
        min <= r@.len() <= max,
        forall|k: int| 0 <= k < r@.len() ==> #[trigger] r@[k] < num_options,
{
    let mut valid: Vec<usize> = Vec::new();
    let ghost answered: Seq<usize> = match &chosen {
        Some(v) => v@,
        None => Seq::empty(),
    };
    match chosen {
        Some(v) => {
            let mut i: usize = 0;
            while i < v.len()
                invariant
                    i <= v@.len(),
                    valid@ == in_range(v@.subrange(0, i as int), num_options),
                decreases v.len() - i,
            {
                assert(v@.subrange(0, i + 1).drop_last() == v@.subrange(0, i as int));
                if v[i] < num_options {
                    valid.push(v[i]);
                }
                i = i + 1;
            }
            assert(v@.subrange(0, v@.len() as int) == v@);
        },
        None => {
            assert(valid@ == Seq::<usize>::empty());
        },
    }
    proof {
        lemma_in_range_bounded(answered, num_options);
    }
    if min <= valid.len() && valid.len() <= max {
        return valid;
    }
    let mut first: Vec<usize> = Vec::new();
    let mut j: usize = 0;
    while j < min
        invariant
            j <= min,
            first@ == first_indices(j),
        decreases min - j,
    {
        first.push(j);
        j = j + 1;
        assert(first@ =~= first_indices(j));
    }
    first
}

/// The values of the options taken for answer `chosen` (see
/// `multiple_indices`): clones of the option values at those indices, in order.
pub fn chosen_values<T: Clone>(options: &[(String, T)], chosen: Option<Vec<usize>>, min: usize, max: usize) -> (r: Vec<
    T,
>)
    requires
        min <= max,
        min <= options@.len(),
    ensures
        ({
            let idx = multiple_indices(options@.len() as usize, chosen, min, max);
            &&& r@.len() == idx.len()
            &&& forall|k: int| 0 <= k < idx.len() ==> cloned(options@[idx[k] as int].1, #[trigger] r@[k])
        }),
        min <= r@.len() <= max,
        forall|k: int| 0 <= k < r@.len() ==> is_option_value(options@, #[trigger] r@[k]),
{
    let indices = choose_multiple_indices(options.len(), chosen, min, max);
    let mut r: Vec<T> = Vec::new();
    let mut i: usize = 0;
    while i < indices.len()
        invariant
            i <= indices@.len(),
            r@.len() == i,
            forall|k: int| 0 <= k < indices@.len() ==> #[trigger] indices@[k] < options@.len(),
            forall|k: int| 0 <= k < i ==> cloned(options@[indices@[k] as int].1, #[trigger] r@[k]),
            forall|k: int| 0 <= k < i ==> is_option_value(options@, #[trigger] r@[k]),
        decreases indices.len() - i,
    {
        let idx = indices[i];
        let v = options[idx].1.clone();
        r.push(v);
        proof {
            assert(cloned(options@[idx as int].1, r@[i as int]));
            assert(is_option_value(options@, r@[i as int]));
        }
        i = i + 1;
    }
    r
}

/// Ask a player to choose multiple options from a list of choices.
///
/// Returns clones of the values of the chosen options (see
/// `choose_multiple_indices`); between `min` and `max` of them.
pub fn ask_choose_multiple<T: Clone, D: DecisionMaker>(
    game: &GameState,
    dm: &mut D,
    player: PlayerId,
    source: ObjectId,
    options: &[(String, T)],
    min: usize,
    max: usize,
) -> (r: Vec<T>)
    requires
        options@.len() > 0,
        min <= max,
        min <= options@.len(),
    ensures
        min <= r@.len() <= max,
        forall|k: int| 0 <= k < r@.len() ==> is_option_value(options@, #[trigger] r@[k]),
{
    let shown = display_options(options);
    let ctx = SelectOptionsContext::new(player, Some(source), "Choose", shown, min, max);
    let chosen = dm.decide_options(game, &ctx);
    chosen_values(options, chosen, min, max)
}

} // verus!
