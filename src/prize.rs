use crate::ids::{TimestampMillis, UserId};
use crate::message_content::P2PSwapStatus;
use vstd::prelude::*;

verus! {

/// Why a prize could not be reserved.
#[derive(Clone, Copy, Debug, PartialEq, Eq, Structural)]
pub enum ReservePrizeError {
    PrizeEnded,
    AlreadyClaimed,
    PrizeFullyClaimed,
}

/// The funds of a prize message: the prizes still to be won, the users holding
/// a reserved prize while its payment is made, and the winners.
#[derive(Clone, Debug)]
pub struct PrizeState {
    pub prizes_remaining: Vec<u128>,
    pub reservations: Vec<(UserId, u128)>,
    pub winners: Vec<UserId>,
    pub end_date: TimestampMillis,
    pub final_payments_started: bool,
}

/// The user holds a reservation or has won.
pub open spec fn has_claimed(p: PrizeState, user: UserId) -> bool {
    p.winners@.contains(user) || exists|i: int| 0 <= i < p.reservations@.len() && #[trigger] p.reservations@[i].0 == user
}

fn find_reservation(v: &Vec<(UserId, u128)>, user: UserId) -> (r: Option<usize>)
    ensures
        match r {
            Some(i) => i < v@.len() && v@[i as int].0 == user,
            None => forall|i: int| 0 <= i < v@.len() ==> #[trigger] v@[i].0 != user,
        },
{
    let mut i: usize = 0;
    while i < v.len()
        invariant
            0 <= i <= v@.len(),
            forall|j: int| 0 <= j < i ==> #[trigger] v@[j].0 != user,
        decreases v@.len() - i,
    {
        if v[i].0 == user {
            return Some(i);
        }
        i = i + 1;
    }
    None
}

fn contains_user(v: &Vec<UserId>, u: UserId) -> (r: bool)
    ensures
        r == v@.contains(u),
{
    let mut i: usize = 0;
    while i < v.len()
        invariant
            0 <= i <= v@.len(),
            forall|j: int| 0 <= j < i ==> v@[j] != u,
        decreases v@.len() - i,
    {
        if v[i] == u {
            assert(v@[i as int] == u);
            return true;
        }
        i = i + 1;
    }
    false
}

impl PrizeState {
    /// An open prize with the given prizes, ending at `end_date`.
    pub fn new(prizes: Vec<u128>, end_date: TimestampMillis) -> (r: PrizeState)
        ensures
            r.prizes_remaining@ == prizes@,
            r.reservations@.len() == 0,
            r.winners@.len() == 0,
            r.end_date == end_date,
            !r.final_payments_started,
    {
        PrizeState {
            prizes_remaining: prizes,
            reservations: Vec::new(),
            winners: Vec::new(),
            end_date,
            final_payments_started: false,
        }
    }

    /// Reserves the last remaining prize for `user` while it is paid, where the
    /// prize is still running, the user has not claimed yet, and a prize remains.
    pub fn reserve(&mut self, user: UserId, now: TimestampMillis) -> (r: Result<u128, ReservePrizeError>)
        ensures
            now >= old(self).end_date ==> r == Err::<u128, ReservePrizeError>(ReservePrizeError::PrizeEnded),
            now < old(self).end_date && has_claimed(*old(self), user) ==> r == Err::<
                u128,
                ReservePrizeError,
            >(ReservePrizeError::AlreadyClaimed),
            now < old(self).end_date && !has_claimed(*old(self), user) && old(self).prizes_remaining@.len()
                == 0 ==> r == Err::<u128, ReservePrizeError>(ReservePrizeError::PrizeFullyClaimed),
            r is Err ==> *final(self) == *old(self),
            r is Ok ==> {
                let amount = r->Ok_0;
                &&& old(self).prizes_remaining@.len() > 0
                &&& amount == old(self).prizes_remaining@.last()
                &&& final(self).prizes_remaining@ == old(self).prizes_remaining@.drop_last()
                &&& final(self).reservations@ == old(self).reservations@.push((user, amount))
                &&& final(self).winners == old(self).winners
                &&& final(self).end_date == old(self).end_date
                &&& final(self).final_payments_started == old(self).final_payments_started
            },
            now < old(self).end_date && !has_claimed(*old(self), user) && old(self).prizes_remaining@.len()
                > 0 ==> r is Ok,
    {
        if now >= self.end_date {
            return Err(ReservePrizeError::PrizeEnded);
        }
        let reserved = find_reservation(&self.reservations, user);
        if contains_user(&self.winners, user) || reserved.is_some() {
            return Err(ReservePrizeError::AlreadyClaimed);
        }
        if self.prizes_remaining.len() == 0 {
            return Err(ReservePrizeError::PrizeFullyClaimed);
        }
        let amount = self.prizes_remaining.pop().unwrap();
        self.reservations.push((user, amount));
        Ok(amount)
    }

    /// The payment of a reserved prize went through: the user becomes a winner.
    pub fn confirm(&mut self, user: UserId) -> (r: bool)
        ensures
            r == exists|i: int| 0 <= i < old(self).reservations@.len() && #[trigger] old(self).reservations@[i].0 == user,
            r ==> exists|i: int|
                0 <= i < old(self).reservations@.len() && old(self).reservations@[i].0 == user
                    && final(self).reservations@ == old(self).reservations@.remove(i),
            r ==> final(self).winners@ == old(self).winners@.push(user),
            !r ==> *final(self) == *old(self),
            final(self).prizes_remaining == old(self).prizes_remaining,
            final(self).final_payments_started == old(self).final_payments_started,
    {
        match find_reservation(&self.reservations, user) {
            Some(i) => {
                self.reservations.remove(i);
                self.winners.push(user);
                true
            },
            None => false,
        }
    }

    /// The payment of a reserved prize failed: the prize goes back to the
    /// remaining ones and the user may claim again.
    pub fn unreserve(&mut self, user: UserId) -> (r: bool)
        ensures
            r == exists|i: int| 0 <= i < old(self).reservations@.len() && #[trigger] old(self).reservations@[i].0 == user,
            r ==> exists|i: int|
                0 <= i < old(self).reservations@.len() && old(self).reservations@[i].0 == user
                    && final(self).reservations@ == old(self).reservations@.remove(i)
                    && final(self).prizes_remaining@ == old(self).prizes_remaining@.push(
                    old(self).reservations@[i].1,
                ),
            !r ==> *final(self) == *old(self),
            final(self).winners == old(self).winners,
            final(self).final_payments_started == old(self).final_payments_started,
    {
        match find_reservation(&self.reservations, user) {
            Some(i) => {
                let (_, amount) = self.reservations.remove(i);
                self.prizes_remaining.push(amount);
                true
            },
            None => false,
        }
    }

    /// Once the prize has ended, hands back every remaining prize to be refunded,
    /// once only: later calls return nothing and change nothing.
    pub fn finalize(&mut self, now: TimestampMillis) -> (r: Vec<u128>)
        ensures
            old(self).final_payments_started || now < old(self).end_date ==> r@.len() == 0 && *final(self)
                == *old(self),
            !old(self).final_payments_started && now >= old(self).end_date ==> {
                &&& r@ == old(self).prizes_remaining@
                &&& final(self).prizes_remaining@.len() == 0
                &&& final(self).final_payments_started
                &&& final(self).reservations == old(self).reservations
                &&& final(self).winners == old(self).winners
                &&& final(self).end_date == old(self).end_date
            },
    {
        if self.final_payments_started || now < self.end_date {
            return Vec::new();
        }
        self.final_payments_started = true;
        let mut refunds: Vec<u128> = Vec::new();
        std::mem::swap(&mut refunds, &mut self.prizes_remaining);
        refunds
    }
}

/// Why a swap could not move to the requested state.
#[derive(Clone, Copy, Debug, PartialEq, Eq, Structural)]
pub enum SwapTransitionError {
    NotOpen,
    NotReserved,
    ReservedByOther,
    Expired,
}

/// The state that a swap offer reaches when `user` reserves it at `now`: only
/// an open offer before its deadline can be reserved, and by one user.
pub fn reserve_swap(status: P2PSwapStatus, user: UserId, now: TimestampMillis, expires_at: TimestampMillis) -> (r:
    Result<P2PSwapStatus, SwapTransitionError>)
    ensures
        r == if !(status is Open) {
            Err(SwapTransitionError::NotOpen)
        } else if now >= expires_at {
            Err(SwapTransitionError::Expired)
        } else {
            Ok(P2PSwapStatus::Reserved(user))
        },
{
    match status {
        P2PSwapStatus::Open => {
            if now >= expires_at {
                Err(SwapTransitionError::Expired)
            } else {
                Ok(P2PSwapStatus::Reserved(user))
            }
        },
        _ => Err(SwapTransitionError::NotOpen),
    }
}

/// Releases the reservation of `user` after the counterparty's payment failed:
/// the offer is open again.
pub fn unreserve_swap(status: P2PSwapStatus, user: UserId) -> (r: Result<P2PSwapStatus, SwapTransitionError>)
    ensures
        r == match status {
            P2PSwapStatus::Reserved(u) => if u == user {
                Ok(P2PSwapStatus::Open)
            } else {
                Err(SwapTransitionError::ReservedByOther)
            },
            _ => Err(SwapTransitionError::NotReserved),
        },
{
    match status {
        P2PSwapStatus::Reserved(u) => {
            if u == user {
                Ok(P2PSwapStatus::Open)
            } else {
                Err(SwapTransitionError::ReservedByOther)
            }
        },
        _ => Err(SwapTransitionError::NotReserved),
    }
}

/// Both legs of a swap reserved by `user` were settled.
pub fn complete_swap(status: P2PSwapStatus, user: UserId) -> (r: Result<P2PSwapStatus, SwapTransitionError>)
    ensures
        r == match status {
            P2PSwapStatus::Reserved(u) => if u == user {
                Ok(P2PSwapStatus::Completed(user))
            } else {
                Err(SwapTransitionError::ReservedByOther)
            },
            _ => Err(SwapTransitionError::NotReserved),
        },
{
    match status {
        P2PSwapStatus::Reserved(u) => {
            if u == user {
                Ok(P2PSwapStatus::Completed(user))
            } else {
                Err(SwapTransitionError::ReservedByOther)
            }
        },
        _ => Err(SwapTransitionError::NotReserved),
    }
}

/// The creator withdrew an open offer.
pub fn cancel_swap(status: P2PSwapStatus) -> (r: Result<P2PSwapStatus, SwapTransitionError>)
    ensures
        r == if status is Open {
            Ok(P2PSwapStatus::Cancelled)
        } else {
            Err(SwapTransitionError::NotOpen)
        },
{
    match status {
        P2PSwapStatus::Open => Ok(P2PSwapStatus::Cancelled),
        _ => Err(SwapTransitionError::NotOpen),
    }
}

/// An open offer whose deadline has passed expires; any other state stays.
pub fn expire_swap(status: P2PSwapStatus, now: TimestampMillis, expires_at: TimestampMillis) -> (r: P2PSwapStatus)
    ensures
        r == if status is Open && now >= expires_at {
            P2PSwapStatus::Expired
        } else {
            status
        },
{
    match status {
        P2PSwapStatus::Open => {
            if now >= expires_at {
                P2PSwapStatus::Expired
            } else {
                status
            }
        },
        _ => status,
    }
}

} // verus!
