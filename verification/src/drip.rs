//! Continuous, time-proportional reward accrual for community members.
//!
//! Each member carries an accrual checkpoint (the last settled time) and an
//! accrued-but-uncollected balance.  Rewards accrue at a fixed global
//! emission rate per member per unit of time; all arithmetic is integral, so
//! every observer replaying the same operations computes the same balances.
//!
//! Fixed policy choices, which callers can rely on:
//! - joining an actor that is already a member is a no-op for that member's
//!   record (the checkpoint is not reset, no accrual is lost);
//! - `quit` forfeits the quitting member's pending balance (nothing settles
//!   it later, and re-joining starts from a fresh checkpoint);
//! - collecting for a non-member returns zero instead of failing.

use vstd::prelude::*;

verus! {

/// Reward units accrued per member per unit of time.
pub const DRIP_EMISSION_RATE: u64 = 100;

/// One member's accrual record.
pub struct MemberDrip {
    /// The member's account id.
    pub account: String,
    /// The time up to which this member's accrual has been settled.
    pub checkpoint: u64,
    /// Reward settled but not yet collected.
    pub accrued: u128,
}

/// The accrual engine: the active member set and the engine's clock
/// high-water mark.
pub struct Drip {
    members: Vec<MemberDrip>,
    time: u64,
}

impl Drip {
    /// The member records, in joining order.
    pub closed spec fn spec_members(&self) -> Seq<MemberDrip> {
        self.members@
    }

    /// The latest time the engine has seen; checkpoints never exceed it.
    pub closed spec fn spec_time(&self) -> u64 {
        self.time
    }

    /// Accounts are distinct and no checkpoint lies in the future.
    pub open spec fn wf(&self) -> bool {
        &&& forall|i: int, j: int|
            0 <= i < j < self.spec_members().len() ==> self.spec_members()[i].account@
                != self.spec_members()[j].account@
        &&& forall|i: int|
            0 <= i < self.spec_members().len() ==> self.spec_members()[i].checkpoint
                <= self.spec_time()
    }

    /// Whether `a` is an active member.
    pub open spec fn spec_is_member(&self, a: Seq<char>) -> bool {
        exists|i: int| 0 <= i < self.spec_members().len() && self.spec_members()[i].account@ == a
    }

    /// The index of `a`'s record; meaningful only when `a` is a member of a
    /// well-formed engine, where it is unique.
    pub open spec fn spec_index_of(&self, a: Seq<char>) -> int {
        choose|i: int| 0 <= i < self.spec_members().len() && self.spec_members()[i].account@ == a
    }

    /// The amount a settlement at `now` would pay `a`: the stored balance
    /// plus the elapsed time since the checkpoint times the emission rate;
    /// zero for a non-member.
    pub open spec fn spec_pending(&self, a: Seq<char>, now: u64) -> int {
        if self.spec_is_member(a) {
            let m = self.spec_members()[self.spec_index_of(a)];
            m.accrued + (now - m.checkpoint) * DRIP_EMISSION_RATE
        } else {
            0
        }
    }

    /// How joining `a` at `now` changes the engine: a fresh record with a
    /// checkpoint at `now` and no balance, or nothing but the clock when `a`
    /// already is a member.
    pub open spec fn spec_joined(pre: Drip, post: Drip, a: Seq<char>, now: u64) -> bool {
        &&& post.spec_time() == now
        &&& if pre.spec_is_member(a) {
            post.spec_members() == pre.spec_members()
        } else {
            &&& post.spec_members().len() == pre.spec_members().len() + 1
            &&& post.spec_members().take(pre.spec_members().len() as int) == pre.spec_members()
            &&& post.spec_members().last().account@ == a
            &&& post.spec_members().last().checkpoint == now
            &&& post.spec_members().last().accrued == 0
        }
    }

    /// How `a`'s quitting changes the engine: its record is dropped — the
    /// pending balance is forfeited — and nothing else moves.
    pub open spec fn spec_quitted(pre: Drip, post: Drip, a: Seq<char>) -> bool {
        &&& post.spec_time() == pre.spec_time()
        &&& if pre.spec_is_member(a) {
            post.spec_members() == pre.spec_members().remove(pre.spec_index_of(a))
        } else {
            post.spec_members() == pre.spec_members()
        }
    }

    /// How collecting for `a` at `now` changes the engine: `a`'s record is
    /// settled to a checkpoint at `now` with a zero balance, every other
    /// record is untouched.
    pub open spec fn spec_collected(pre: Drip, post: Drip, a: Seq<char>, now: u64) -> bool {
        &&& post.spec_time() == now
        &&& if pre.spec_is_member(a) {
            let i = pre.spec_index_of(a);
            &&& post.spec_members().len() == pre.spec_members().len()
            &&& forall|j: int|
                0 <= j < pre.spec_members().len() && j != i ==> post.spec_members()[j]
                    == pre.spec_members()[j]
            &&& post.spec_members()[i].account == pre.spec_members()[i].account
            &&& post.spec_members()[i].checkpoint == now
            &&& post.spec_members()[i].accrued == 0
        } else {
            post.spec_members() == pre.spec_members()
        }
    }

    /// An empty engine with its clock at zero.
    pub fn new() -> (r: Drip)
        ensures
            r.wf(),
            r.spec_members() =~= Seq::<MemberDrip>::empty(),
            r.spec_time() == 0,
    {
        Drip { members: Vec::new(), time: 0 }
    }

    /// The number of active members.
    pub fn member_count(&self) -> (r: usize)
        ensures
            r == self.spec_members().len(),
    {
        self.members.len()
    }

    /// Whether `account` is an active member.
    pub fn is_member(&self, account: &String) -> (r: bool)
        ensures
            r == self.spec_is_member(account@),
    {
        match self.find(account) {
            Some(_) => true,
            None => false,
        }
    }

    /// Registers `account` with a fresh checkpoint at `now`.  Joining twice
    /// is a no-op: the existing record, its checkpoint and its balance are
    /// all kept.
    pub fn join(&mut self, account: &String, now: u64)
        requires
            old(self).wf(),
            now >= old(self).spec_time(),
        ensures
            final(self).wf(),
            Drip::spec_joined(*old(self), *final(self), account@, now),
    {
        let found = self.find(account);
        match found {
            Some(_) => {
                self.time = now;
            },
            None => {
                let ghost pre = *self;
                proof {
                    assert forall|j: int|
                        0 <= j < pre.spec_members().len() implies pre.spec_members()[j].account@
                        != account@ by {
                        if pre.spec_members()[j].account@ == account@ {
                            assert(pre.spec_is_member(account@));
                        }
                    }
                }
                self.members.push(MemberDrip { account: account.clone(), checkpoint: now, accrued: 0 });
                self.time = now;
                proof {
                    let n = pre.spec_members().len() as int;
                    assert(self.spec_members().take(n) =~= pre.spec_members());
                    assert forall|i: int, j: int|
                        0 <= i < j < self.spec_members().len() implies self.spec_members()[i].account@
                        != self.spec_members()[j].account@ by {
                        assert(self.spec_members()[i] == pre.spec_members()[i]);
                        if j < n {
                            assert(self.spec_members()[j] == pre.spec_members()[j]);
                            assert(pre.spec_members()[i].account@ != pre.spec_members()[j].account@);
                        } else {
                            assert(self.spec_members()[j].account@ == account@);
                        }
                    }
                }
            },
        }
    }

    /// Removes `account` from the active set.  Whatever was pending is
    /// forfeited; quitting while not a member changes nothing.
    pub fn quit(&mut self, account: &String)
        requires
            old(self).wf(),
        ensures
            final(self).wf(),
            Drip::spec_quitted(*old(self), *final(self), account@),
            !final(self).spec_is_member(account@),
    {
        let found = self.find(account);
        match found {
            Some(i) => {
                let ghost pre = *self;
                proof {
                    lemma_index_of_is(*self, account@, i as int);
                }
                self.members.remove(i);
                proof {
                    assert forall|i2: int, j2: int|
                        0 <= i2 < j2 < self.members@.len() implies self.members@[i2].account@
                        != self.members@[j2].account@ by {
                        let oi = if i2 < i as int { i2 } else { i2 + 1 };
                        let oj = if j2 < i as int { j2 } else { j2 + 1 };
                        assert(self.members@[i2] == pre.spec_members()[oi]);
                        assert(self.members@[j2] == pre.spec_members()[oj]);
                    }
                    assert forall|j: int|
                        0 <= j < self.members@.len() implies self.members@[j].account@
                        != account@ by {
                        let oj = if j < i as int { j } else { j + 1 };
                        assert(self.members@[j] == pre.spec_members()[oj]);
                    }
                }
            },
            None => {},
        }
    }

    /// Settles `account`'s accrual up to `now`, returns the whole balance,
    /// and resets the stored balance to zero.  For a non-member this pays
    /// zero and changes nothing; it is not an error.
    pub fn get_and_clear_drip(&mut self, account: &String, now: u64) -> (amt: u128)
        requires
            old(self).wf(),
            now >= old(self).spec_time(),
            old(self).spec_pending(account@, now) <= u128::MAX,
        ensures
            final(self).wf(),
            Drip::spec_collected(*old(self), *final(self), account@, now),
            amt == old(self).spec_pending(account@, now),
    {
        let found = self.find(account);
        match found {
            Some(i) => {
                proof {
                    lemma_index_of_is(*self, account@, i as int);
                }
                let cp = self.members[i].checkpoint;
                let acc = self.members[i].accrued;
                let name = self.members[i].account.clone();
                let delta: u128 = ((now - cp) as u128) * (DRIP_EMISSION_RATE as u128);
                let amt = acc + delta;
                let ghost pre = *self;
                self.members[i] = MemberDrip { account: name, checkpoint: now, accrued: 0 };
                self.time = now;
                proof {
                    assert forall|j: int|
                        0 <= j < self.spec_members().len() implies self.spec_members()[j].account
                        == pre.spec_members()[j].account by {
                        if j != i as int {
                            assert(self.spec_members()[j] == pre.spec_members()[j]);
                        }
                    }
                    assert forall|i2: int, j2: int|
                        0 <= i2 < j2 < self.spec_members().len() implies self.spec_members()[i2].account@
                        != self.spec_members()[j2].account@ by {
                        assert(pre.spec_members()[i2].account@ != pre.spec_members()[j2].account@);
                    }
                    assert forall|j: int|
                        0 <= j < self.spec_members().len() implies self.spec_members()[j].checkpoint
                        <= self.spec_time() by {
                        if j != i as int {
                            assert(self.spec_members()[j] == pre.spec_members()[j]);
                            assert(pre.spec_members()[j].checkpoint <= pre.spec_time());
                        }
                    }
                }
                amt
            },
            None => {
                let ghost pre = *self;
                self.time = now;
                proof {
                    assert forall|j: int|
                        0 <= j < self.spec_members().len() implies self.spec_members()[j].checkpoint
                        <= self.spec_time() by {
                        assert(self.spec_members()[j] == pre.spec_members()[j]);
                        assert(pre.spec_members()[j].checkpoint <= pre.spec_time());
                    }
                }
                0
            },
        }
    }

    /// The engine's clock high-water mark.
    pub fn time(&self) -> (r: u64)
        ensures
            r == self.spec_time(),
    {
        self.time
    }

    /// What a settlement at `now` would pay `account`, without settling:
    /// `None` exactly when the amount would exceed the widest integer the
    /// engine can pay.
    pub fn pending(&self, account: &String, now: u64) -> (r: Option<u128>)
        requires
            self.wf(),
            now >= self.spec_time(),
        ensures
            match r {
                Some(x) => self.spec_pending(account@, now) <= u128::MAX && x == self.spec_pending(
                    account@,
                    now,
                ),
                None => self.spec_pending(account@, now) > u128::MAX,
            },
    {
        match self.find(account) {
            None => Some(0),
            Some(i) => {
                proof {
                    lemma_index_of_is(*self, account@, i as int);
                }
                let cp = self.members[i].checkpoint;
                let acc = self.members[i].accrued;
                proof {
                    assert(((now - cp) as int) * (DRIP_EMISSION_RATE as int)
                        < 0x100000000000000000000000000000000) by (nonlinear_arith)
                        requires
                            now - cp <= 0xffffffffffffffffu64,
                            DRIP_EMISSION_RATE <= 0xffffffffffffffffu64,
                    ;
                }
                let delta: u128 = ((now - cp) as u128) * (DRIP_EMISSION_RATE as u128);
                if acc > u128::MAX - delta {
                    None
                } else {
                    Some(acc + delta)
                }
            },
        }
    }

    /// The index of `account`'s record, if it is a member.
    fn find(&self, account: &String) -> (r: Option<usize>)
        ensures
            match r {
                Some(i) => i < self.spec_members().len() && self.spec_members()[i as int].account@
                    == account@,
                None => !self.spec_is_member(account@),
            },
    {
        let mut i: usize = 0;
        while i < self.members.len()
            invariant
                i <= self.members@.len(),
                forall|j: int| 0 <= j < i ==> self.members@[j].account@ != account@,
            decreases self.members@.len() - i,
        {
            if self.members[i].account == *account {
                return Some(i);
            }
            i = i + 1;
        }
        None
    }
}

/// In a well-formed engine a member's index is unique: any matching index is
/// the one `spec_index_of` picks.
pub proof fn lemma_index_of_is(d: Drip, a: Seq<char>, i: int)
    requires
        d.wf(),
        0 <= i < d.spec_members().len(),
        d.spec_members()[i].account@ == a,
    ensures
        d.spec_is_member(a),
        d.spec_index_of(a) == i,
{
    let j = d.spec_index_of(a);
    if j != i {
        if i < j {
            assert(d.spec_members()[i].account@ != d.spec_members()[j].account@);
        } else {
            assert(d.spec_members()[j].account@ != d.spec_members()[i].account@);
        }
    }
}

/// Quitting really removes the member: afterwards a settlement at any time
/// pays zero.  With joining and collecting this is the "join, quit at once,
/// collect pays nothing" guarantee.
pub proof fn lemma_quitted_pays_nothing(pre: Drip, post: Drip, a: Seq<char>, now: u64)
    requires
        pre.wf(),
        Drip::spec_quitted(pre, post, a),
    ensures
        !post.spec_is_member(a),
        post.spec_pending(a, now) == 0,
{
    if pre.spec_is_member(a) {
        let i = pre.spec_index_of(a);
        lemma_index_of_is(pre, a, i);
        assert forall|j: int|
            0 <= j < post.spec_members().len() implies post.spec_members()[j].account@ != a by {
            let oj = if j < i { j } else { j + 1 };
            assert(post.spec_members()[j] == pre.spec_members()[oj]);
            if oj != i {
                lemma_index_of_is(pre, a, i);
                if pre.spec_members()[oj].account@ == a {
                    lemma_index_of_is(pre, a, oj);
                }
            }
        }
    } else {
        assert forall|j: int|
            0 <= j < post.spec_members().len() implies post.spec_members()[j].account@ != a by {
            assert(post.spec_members()[j] == pre.spec_members()[j]);
        }
    }
}

/// Joining and then quitting at once leaves nothing to collect: a
/// settlement right after — elapsed time zero — pays zero.
pub proof fn lemma_join_quit_then_collect_zero(
    pre: Drip,
    joined: Drip,
    quitted: Drip,
    a: Seq<char>,
    t: u64,
)
    requires
        pre.wf(),
        joined.wf(),
        Drip::spec_joined(pre, joined, a, t),
        Drip::spec_quitted(joined, quitted, a),
    ensures
        quitted.spec_pending(a, t) == 0,
{
    lemma_quitted_pays_nothing(joined, quitted, a, t);
}

/// A member who joined fresh at `t` and collects `dt` later is paid exactly
/// `dt` times the emission rate.
pub proof fn lemma_fresh_join_then_collect(pre: Drip, post: Drip, a: Seq<char>, t: u64, dt: u64)
    requires
        pre.wf(),
        post.wf(),
        !pre.spec_is_member(a),
        Drip::spec_joined(pre, post, a, t),
        t + dt <= u64::MAX,
    ensures
        post.spec_pending(a, (t + dt) as u64) == dt * DRIP_EMISSION_RATE,
{
    let n = pre.spec_members().len() as int;
    assert(post.spec_members()[n].account@ == a);
    lemma_index_of_is(post, a, n);
}

/// Collecting leaves nothing behind: a second settlement at the same time
/// pays zero.
pub proof fn lemma_collected_then_zero(pre: Drip, post: Drip, a: Seq<char>, now: u64)
    requires
        pre.wf(),
        post.wf(),
        Drip::spec_collected(pre, post, a, now),
    ensures
        post.spec_pending(a, now) == 0,
{
    if pre.spec_is_member(a) {
        let i = pre.spec_index_of(a);
        lemma_index_of_is(pre, a, i);
        assert(post.spec_members()[i].account@ == a);
        lemma_index_of_is(post, a, i);
    } else {
        assert forall|j: int|
            0 <= j < post.spec_members().len() implies post.spec_members()[j].account@ != a by {
            assert(post.spec_members()[j] == pre.spec_members()[j]);
        }
    }
}

} // verus!
