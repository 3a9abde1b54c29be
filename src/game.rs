//! The game unit's state and the decisions of a play.
//!
//! The host (clock, caller, attached value, holdings, value transfer) stays
//! outside: each play is handed a [`CallContext`], returns the payout that the
//! host is to make, and is then settled by the outcome of that transfer.

use vstd::prelude::*;
use crate::draw::{draw_byte, draw_value};

verus! {

/// The least total holding at which a paid play draws.
pub const MIN_BALANCE_TO_DRAW: u128 = 10;

/// Draws below this value win.
pub const WINNING_DRAWS: u8 = 90;

/// The largest value a play's draw can take.
pub const MAX_DRAW: u8 = 254;

/// What the host tells the unit about the call in flight.
#[derive(Clone, Copy, Debug, PartialEq, Eq)]
pub struct CallContext {
    /// The host's clock.
    pub now: u64,
    /// The account that made the call.
    pub caller: [u8; 32],
    /// The value attached to the call.
    pub transferred: u128,
    /// The unit's total holdings, the attached value included.
    pub balance: u128,
}

/// A payout: `value` was sent to the account `to`.
#[derive(Clone, Copy, Debug, PartialEq, Eq)]
pub struct Released {
    pub value: u128,
    pub to: [u8; 32],
}

/// Why a play failed.
#[derive(Clone, Copy, Debug, PartialEq, Eq)]
pub enum PlayError {
    /// The host could not deliver the payout.
    TransferFailed,
}

/// The game unit: when it was last fed, when it was last played with, and
/// the salt that makes each draw differ from the one before.
#[derive(Clone, Copy, Debug, PartialEq, Eq)]
pub struct Metadogo {
    last_feed_time: u64,
    last_play_time: u64,
    salt: u64,
}

/// Whether a play in this context draws: value was attached and the unit
/// holds enough.
pub open spec fn draws(ctx: CallContext) -> bool {
    ctx.transferred > 0 && ctx.balance >= MIN_BALANCE_TO_DRAW
}

/// What a draw of `n` pays out of holdings `balance`: nothing for a losing
/// draw, else the holdings divided by `n + 10`, rounded down.
pub open spec fn payout(balance: u128, n: u8) -> Option<u128> {
    if n < WINNING_DRAWS {
        Some((balance as int / (n as int + 10)) as u128)
    } else {
        None
    }
}

/// The payout record of a draw of `n` in context `ctx`.
pub open spec fn release(ctx: CallContext, n: u8) -> Option<Released> {
    match payout(ctx.balance, n) {
        Some(v) => Some(Released { value: v, to: ctx.caller }),
        None => None,
    }
}

/// The payout of a draw of `n` out of holdings `balance`.
pub fn payout_for(balance: u128, n: u8) -> (r: Option<u128>)
    ensures
        r == payout(balance, n),
{
    if n < WINNING_DRAWS {
        Some(balance / (n as u128 + 10))
    } else {
        None
    }
}

/// The payout record of a draw of `n` in context `ctx`.
pub fn release_for(ctx: &CallContext, n: u8) -> (r: Option<Released>)
    ensures
        r == release(*ctx, n),
{
    match payout_for(ctx.balance, n) {
        Some(v) => Some(Released { value: v, to: ctx.caller }),
        None => None,
    }
}

impl Metadogo {
    /// When the unit was last fed.
    pub closed spec fn feed_time(self) -> u64 {
        self.last_feed_time
    }

    /// When the unit was last played with.
    pub closed spec fn play_time(self) -> u64 {
        self.last_play_time
    }

    /// The salt of the next draw.
    pub closed spec fn salt(self) -> u64 {
        self.salt
    }

    /// The state after a play in context `ctx`, before its payout is settled.
    pub closed spec fn thrown(self, ctx: CallContext) -> Metadogo {
        Metadogo {
            last_feed_time: self.last_feed_time,
            last_play_time: ctx.now,
            salt: if draws(ctx) { (self.salt + 1) as u64 } else { self.salt },
        }
    }

    /// The state once the payout's transfer is known: kept where it went
    /// through (or none was due), else the state from before the play.
    pub open spec fn settled(self, before: Metadogo, transfer_ok: bool) -> Metadogo {
        if transfer_ok { self } else { before }
    }

    /// A unit with the given times and salt, taken as they are.
    pub fn new(last_feed_time: u64, last_play_time: u64, salt: u64) -> (r: Self)
        ensures
            r.feed_time() == last_feed_time,
            r.play_time() == last_play_time,
            r.salt() == salt,
    {
        Metadogo { last_feed_time, last_play_time, salt }
    }

    /// A new unit, fed and played with at the host's time `now`, with salt 0.
    pub fn default(now: u64) -> (r: Self)
        ensures
            r.feed_time() == now,
            r.play_time() == now,
            r.salt() == 0,
    {
        Self::new(now, now, 0)
    }

    /// When the unit was last fed.
    pub fn get_last_feed_time(&self) -> (r: u64)
        ensures
            r == self.feed_time(),
    {
        self.last_feed_time
    }

    /// When the unit was last played with.
    pub fn get_last_play_time(&self) -> (r: u64)
        ensures
            r == self.play_time(),
    {
        self.last_play_time
    }

    /// The salt of the next draw.
    pub fn get_salt(&self) -> (r: u64)
        ensures
            r == self.salt(),
    {
        self.salt
    }

    /// Draws a value in `[0, max_value]` from the time `now` and the salt,
    /// and moves the salt on by one.
    pub fn get_pseudo_random(&mut self, now: u64, max_value: u8) -> (r: u8)
        requires
            max_value < 255,
            old(self).salt() < u64::MAX,
        ensures
            r == draw_value(now, old(self).salt(), max_value),
            r <= max_value,
            final(self).salt() == old(self).salt() + 1,
            final(self).feed_time() == old(self).feed_time(),
            final(self).play_time() == old(self).play_time(),
    {
        let n = draw_byte(now, self.salt, max_value);
        self.salt = self.salt + 1;
        n
    }

    /// A play in context `ctx`. The play time becomes the host's time. Where
    /// value was attached and the unit holds at least 10, one draw in
    /// `[0, 254]` is made; a draw `n` below 90 wins the holdings divided by
    /// `n + 10`, which is returned for the host to send to the caller.
    pub fn throw_ball(&mut self, ctx: &CallContext) -> (r: Option<Released>)
        requires
            draws(*ctx) ==> old(self).salt() < u64::MAX,
        ensures
            *final(self) == old(self).thrown(*ctx),
            final(self).play_time() == ctx.now,
            final(self).feed_time() == old(self).feed_time(),
            final(self).salt() == if draws(*ctx) { old(self).salt() + 1 } else { old(self).salt() as int },
            r == if draws(*ctx) {
                release(*ctx, draw_value(ctx.now, old(self).salt(), MAX_DRAW))
            } else {
                None
            },
    {
        self.last_play_time = ctx.now;
        if ctx.transferred > 0 && ctx.balance >= MIN_BALANCE_TO_DRAW {
            let n = self.get_pseudo_random(ctx.now, MAX_DRAW);
            release_for(ctx, n)
        } else {
            None
        }
    }

    /// Settles a play by the outcome of its payout's transfer. Where the
    /// transfer failed the play fails and the unit goes back to `before`,
    /// its state from before the play.
    pub fn settle(&mut self, before: Metadogo, transfer_ok: bool) -> (r: Result<(), PlayError>)
        ensures
            *final(self) == old(self).settled(before, transfer_ok),
            r == if transfer_ok { Ok::<(), PlayError>(()) } else { Err(PlayError::TransferFailed) },
    {
        if transfer_ok {
            Ok(())
        } else {
            *self = before;
            Err(PlayError::TransferFailed)
        }
    }
}

/// A play that draws nothing (no value attached, or holdings under 10)
/// moves the play time to the host's time and leaves the salt and the feed
/// time as they were.
pub proof fn lemma_play_without_draw(before: Metadogo, ctx: CallContext)
    requires
        ctx.transferred == 0 || ctx.balance < MIN_BALANCE_TO_DRAW,
    ensures
        before.thrown(ctx).play_time() == ctx.now,
        before.thrown(ctx).salt() == before.salt(),
        before.thrown(ctx).feed_time() == before.feed_time(),
{
}

/// Draws 0 to 89 win and 90 to 255 lose; a winning draw pays the holdings
/// divided by the draw plus 10, rounded down.
pub proof fn lemma_winning_draws(balance: u128, n: u8)
    ensures
        payout(balance, n) is Some <==> n <= 89,
        n <= 89 ==> payout(balance, n) == Some((balance as int / (n as int + 10)) as u128),
        payout(balance, 90) is None,
        payout(balance, 89) is Some,
{
}

/// A play whose payout cannot be delivered leaves no trace: settling it as
/// failed gives back the unit as it was before the play, play time and salt
/// included. Settling it as delivered keeps the play's state.
pub proof fn lemma_failed_transfer_restores(before: Metadogo, ctx: CallContext)
    ensures
        before.thrown(ctx).settled(before, false) == before,
        before.thrown(ctx).settled(before, false).play_time() == before.play_time(),
        before.thrown(ctx).settled(before, false).salt() == before.salt(),
        before.thrown(ctx).settled(before, true) == before.thrown(ctx),
{
}

} // verus!
