//! Energy cost.

use vstd::prelude::*;
use crate::ids::PlayerId;
use crate::cost::CostPaymentError;
use crate::costs::{Cost, CostContext, CostPaymentResult};
use crate::game::{GameState, Player};
use crate::text::{push_str, string_of};

verus! {

/// An energy payment cost (e.g., pay {E}{E}{E}).
///
/// The player must have enough energy counters.
#[derive(Debug, Clone, Copy, PartialEq, Eq, Structural)]
pub struct EnergyCost {
    /// The amount of energy to pay.
    pub amount: u32,
}

/// Why `payer` cannot pay `amount` energy, if it cannot.
pub open spec fn energy_error(game: GameState, payer: PlayerId, amount: u32) -> Option<CostPaymentError> {
    match game.player_of(payer) {
        None => Some(CostPaymentError::PlayerNotFound),
        Some(p) => if p.energy_counters < amount {
            Some(CostPaymentError::InsufficientEnergy)
        } else {
            None
        },
    }
}

/// `s` repeated `n` times.
pub open spec fn repeat(s: Seq<char>, n: nat) -> Seq<char>
    decreases n,
{
    if n == 0 {
        Seq::empty()
    } else {
        repeat(s, (n - 1) as nat) + s
    }
}

/// The text of an energy payment: one `{E}` per energy.
pub open spec fn energy_text(amount: u32) -> Seq<char> {
    if amount == 0 {
        "Pay no energy"@
    } else {
        "Pay "@ + repeat("{E}"@, amount as nat)
    }
}

impl EnergyCost {
    /// Create a new energy payment cost.
    pub fn new(amount: u32) -> (c: EnergyCost)
        ensures
            c.amount == amount,
    {
        EnergyCost { amount }
    }

    /// Checks that the payer exists and has enough energy.
    pub fn can_pay(&self, game: &GameState, ctx: &CostContext) -> (r: Result<(), CostPaymentError>)
        ensures
            r == match energy_error(*game, ctx.payer, self.amount) {
                Some(e) => Err::<(), CostPaymentError>(e),
                None => Ok(()),
            },
    {
        let player = match game.player(ctx.payer) {
            Some(p) => p,
            None => {
                return Err(CostPaymentError::PlayerNotFound);
            },
        };
        if player.energy_counters < self.amount {
            return Err(CostPaymentError::InsufficientEnergy);
        }
        Ok(())
    }

    /// Removes the energy from the payer, if it can be paid; otherwise
    /// changes nothing and returns the reason.
    pub fn pay(&self, game: &mut GameState, ctx: &mut CostContext) -> (r: Result<CostPaymentResult, CostPaymentError>)
        ensures
            *final(ctx) == *old(ctx),
            match energy_error(*old(game), old(ctx).payer, self.amount) {
                Some(e) => r == Err::<CostPaymentResult, CostPaymentError>(e) && *final(game) == *old(game),
                None => {
                    let i = old(ctx).payer.0 as int;
                    let p = old(game).players@[i];
                    &&& r == Ok::<CostPaymentResult, CostPaymentError>(CostPaymentResult::Paid)
                    &&& *final(game) == (GameState {
                        players: final(game).players,
                        ..*old(game)
                    })
                    &&& final(game).players@ == old(game).players@.update(
                        i,
                        Player { energy_counters: (p.energy_counters - self.amount) as u32, ..p },
                    )
                },
            },
    {
        match self.can_pay(game, ctx) {
            Err(e) => {
                return Err(e);
            },
            Ok(()) => {},
        }
        let i = ctx.payer.0 as usize;
        let remaining = game.players[i].energy_counters - self.amount;
        game.players[i].energy_counters = remaining;
        Ok(CostPaymentResult::Paid)
    }

    /// This cost as a cost component.
    pub fn clone_box(&self) -> (c: Cost)
        ensures
            c == Cost::Energy(*self),
    {
        Cost::Energy(*self)
    }

    /// Text such as `Pay {E}{E}`.
    pub fn display(&self) -> (t: String)
        ensures
            t@ == energy_text(self.amount),
    {
        if self.amount == 0 {
            return string_of("Pay no energy");
        }
        let mut t = string_of("Pay ");
        let mut i: u32 = 0;
        while i < self.amount
            invariant
                i <= self.amount,
                t@ == "Pay "@ + repeat("{E}"@, i as nat),
            decreases self.amount - i,
        {
            push_str(&mut t, "{E}");
            i = i + 1;
        }
        t
    }
}

} // verus!
