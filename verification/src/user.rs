//! The players and their accounts.

use vstd::prelude::*;
use uuid::Uuid;
use crate::records::StoreError;
use crate::resources::{Resource, ResourceDelta};

verus! {

/// A universally unique id. The library tells one from another and knows no
/// more of them.
#[verifier::external_type_specification]
#[verifier::external_body]
pub struct ExUuid(Uuid);

/// The 128 bits of an id, read as one number.
pub uninterp spec fn uuid_bits(id: Uuid) -> u128;

/// `Uuid::default`, which is `uuid::Uuid::nil`: the id whose bits are all zero.
#[verifier::external_body]
fn default_id() -> (id: Uuid)
    ensures
        uuid_bits(id) == 0,
{
    Uuid::default()
}

/// A player's account.
#[derive(Clone, Copy, Debug)]
pub struct User {
    pub id: Uuid,
    pub credits: i64,
}

/// What the store is to do for a user that is saved.
#[derive(Debug, Clone, Copy, PartialEq, Eq, Structural)]
pub enum UserWrite {
    /// The user is stored: its credits are to be set to these.
    Update { credits: i64 },
    /// The user is not stored: it is to be inserted as it is.
    Insert,
}

impl Default for User {
    fn default() -> (user: Self)
        ensures
            uuid_bits(user.id) == 0,
            user.credits == 0,
    {
        Self { id: default_id(), credits: 0 }
    }
}

/// The size of a number.
pub open spec fn magnitude(value: int) -> int {
    if value < 0 {
        -value
    } else {
        value
    }
}

/// The sum of the sizes of the values of `deltas`.
pub open spec fn total_size(deltas: Seq<ResourceDelta>) -> int
    decreases deltas.len(),
{
    if deltas.len() == 0 {
        0
    } else {
        total_size(deltas.drop_last()) + magnitude(deltas.last().value as int)
    }
}

impl User {
    /// Whether an account of `credits` can take `delta`: it must hold the size
    /// of the delta at least.
    pub open spec fn affords(credits: i64, delta: ResourceDelta) -> bool {
        credits >= magnitude(delta.value as int)
    }

    /// The user with id `user_id`: the one that the store holds, or a new one
    /// without credits, which is then to be saved.
    pub fn new(found: Result<User, StoreError>, user_id: Uuid) -> (made: (User, bool))
        ensures
            made == match found {
                Ok(found_user) => (found_user, false),
                Err(_) => (User { id: user_id, credits: 0 }, true),
            },
    {
        match found {
            Ok(found_user) => (found_user, false),
            Err(_) => (User { id: user_id, credits: 0 }, true),
        }
    }

    /// What saving the user asks of the store, given what the store holds
    /// under the user's id.
    pub fn save(&self, found: Result<User, StoreError>) -> (write: UserWrite)
        ensures
            write == match found {
                Ok(_) => UserWrite::Update { credits: self.credits },
                Err(_) => UserWrite::Insert,
            },
    {
        match found {
            Ok(_) => UserWrite::Update { credits: self.credits },
            Err(_) => UserWrite::Insert,
        }
    }

    /// Applies `delta` to the account if the account holds the size of the
    /// delta at least, and says whether it did.
    pub fn pay_resources(&mut self, delta: &ResourceDelta) -> (paid: bool)
        requires
            delta.resource == Resource::Credit,
            old(self).credits + delta.value <= i64::MAX,
        ensures
            paid == Self::affords(old(self).credits, *delta),
            final(self).id == old(self).id,
            final(self).credits == if paid {
                old(self).credits + delta.value
            } else {
                old(self).credits as int
            },
    {
        let value: i64 = delta.value as i64;
        let size: i64 = if value < 0 {
            -value
        } else {
            value
        };
        if self.credits >= size {
            self.credits += value;
            true
        } else {
            false
        }
    }

    /// Pays every one of `delta`, read as a cost, or none of them. A cost is
    /// the size of a delta, whichever way the delta goes. The costs are tried
    /// in their order, each against what the earlier ones left, and what was
    /// taken is given back if one of them cannot be paid. So the transaction
    /// goes through exactly when the account holds the sum of the sizes, or
    /// nothing is asked of it, and a transaction that fails leaves the account
    /// as it was.
    pub fn pay_resource_transaction(&mut self, delta: Vec<ResourceDelta>) -> (paid: bool)
        requires
            forall|i: int|
                0 <= i < delta@.len() ==> (#[trigger] delta@[i]).resource == Resource::Credit,
        ensures
            paid == (delta@.len() == 0 || total_size(delta@) <= old(self).credits),
            final(self).id == old(self).id,
            final(self).credits == if paid {
                old(self).credits - total_size(delta@)
            } else {
                old(self).credits as int
            },
    {
        let ghost start = self.credits;
        let mut pay_attempt: Vec<bool> = Vec::new();
        let mut all_paid = true;
        let ghost mut taken: int = 0;
        let mut index: usize = 0;
        while index < delta.len()
            invariant
                index <= delta@.len(),
                pay_attempt@.len() == index,
                self.id == old(self).id,
                forall|i: int|
                    0 <= i < delta@.len() ==> (#[trigger] delta@[i]).resource == Resource::Credit,
                0 <= taken <= total_size(delta@.take(index as int)),
                self.credits + taken == start,
                taken == refund(delta@.take(index as int), pay_attempt@),
                all_paid ==> taken == total_size(delta@.take(index as int)),
                all_paid && index > 0 ==> self.credits >= 0,
                index == 0 ==> all_paid,
                !all_paid ==> total_size(delta@.take(index as int)) > start,
            decreases delta@.len() - index,
        {
            assert(delta@.take(index + 1).drop_last() == delta@.take(index as int));
            let cost = delta[index].as_cost();
            let success = self.pay_resources(&cost);
            let ghost earlier = pay_attempt@;
            pay_attempt.push(success);
            assert(pay_attempt@.drop_last() == earlier);
            proof {
                if success {
                    taken = taken + magnitude(delta@[index as int].value as int);
                }
            }
            all_paid = all_paid && success;
            index += 1;
        }
        assert(delta@.take(index as int) == delta@);
        if !all_paid {
            let mut index: usize = 0;
            while index < delta.len()
                invariant
                    index <= delta@.len(),
                    pay_attempt@.len() == delta@.len(),
                    self.id == old(self).id,
                    self.credits + refund(delta@, pay_attempt@) == start + refund(
                        delta@.take(index as int),
                        pay_attempt@.take(index as int),
                    ),
                    refund(delta@.take(index as int), pay_attempt@.take(index as int)) <= refund(
                        delta@,
                        pay_attempt@,
                    ),
                decreases delta@.len() - index,
            {
                proof {
                    assert(delta@.take(index + 1).drop_last() == delta@.take(index as int));
                    assert(pay_attempt@.take(index + 1).drop_last() == pay_attempt@.take(
                        index as int,
                    ));
                    lemma_refund_grows(delta@, pay_attempt@, index + 1);
                }
                if pay_attempt[index] {
                    let cost = delta[index].as_cost();
                    self.credits = self.credits - cost.value as i64;
                }
                index += 1;
            }
            assert(delta@.take(index as int) == delta@);
            assert(pay_attempt@.take(index as int) == pay_attempt@);
            false
        } else {
            true
        }
    }

    /// Adds `delta` to the account.
    pub fn give_resources(&mut self, delta: &ResourceDelta)
        requires
            delta.resource == Resource::Credit,
            i64::MIN <= old(self).credits + delta.value <= i64::MAX,
        ensures
            final(self).id == old(self).id,
            final(self).credits == old(self).credits + delta.value,
    {
        self.credits += delta.value as i64;
    }
}

/// What is given back of `deltas`: the sum of the sizes of those that were
/// paid.
pub open spec fn refund(deltas: Seq<ResourceDelta>, paid: Seq<bool>) -> int
    decreases deltas.len(),
{
    if deltas.len() == 0 || paid.len() != deltas.len() {
        0
    } else {
        refund(deltas.drop_last(), paid.drop_last()) + if paid.last() {
            magnitude(deltas.last().value as int)
        } else {
            0
        }
    }
}

/// What is given back of the first `count` deltas is no more than what is
/// given back of all of them.
pub proof fn lemma_refund_grows(deltas: Seq<ResourceDelta>, paid: Seq<bool>, count: int)
    requires
        paid.len() == deltas.len(),
        0 <= count <= deltas.len(),
    ensures
        0 <= refund(deltas.take(count), paid.take(count)) <= refund(deltas, paid),
    decreases deltas.len() - count,
{
    if count < deltas.len() {
        lemma_refund_grows(deltas, paid, count + 1);
        assert(deltas.take(count + 1).drop_last() == deltas.take(count));
        assert(paid.take(count + 1).drop_last() == paid.take(count));
        lemma_refund_not_negative(deltas.take(count), paid.take(count));
    } else {
        assert(deltas.take(count) == deltas);
        assert(paid.take(count) == paid);
        lemma_refund_not_negative(deltas, paid);
    }
}

/// Nothing negative is given back.
pub proof fn lemma_refund_not_negative(deltas: Seq<ResourceDelta>, paid: Seq<bool>)
    ensures
        0 <= refund(deltas, paid),
    decreases deltas.len(),
{
    if deltas.len() != 0 && paid.len() == deltas.len() {
        lemma_refund_not_negative(deltas.drop_last(), paid.drop_last());
    }
}

} // verus!
