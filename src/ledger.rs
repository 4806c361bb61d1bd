use vstd::prelude::*;
use crate::error::Error;
use crate::table::{ByteTable, append_bytes_to};

verus! {

/// What a balance is held in: the chain's native token or a registered asset.
#[derive(Debug, Clone, Copy, PartialEq, Eq, Structural)]
pub enum Denom {
    Native,
    Asset(u32),
}

/// The fixed-length prefix that tells the kinds of balance apart in the table.
pub open spec fn denom_key(d: Denom) -> Seq<u8> {
    match d {
        Denom::Native => seq![0u8, 0u8, 0u8, 0u8, 0u8],
        Denom::Asset(id) => seq![
            1u8,
            (id >> 24u32) as u8,
            (id >> 16u32) as u8,
            (id >> 8u32) as u8,
            id as u8,
        ],
    }
}

proof fn lemma_u32_bytes(x: u32, y: u32)
    requires
        (x >> 24u32) as u8 == (y >> 24u32) as u8,
        (x >> 16u32) as u8 == (y >> 16u32) as u8,
        (x >> 8u32) as u8 == (y >> 8u32) as u8,
        x as u8 == y as u8,
    ensures
        x == y,
{
    assert(x == y) by (bit_vector)
        requires
            (x >> 24u32) as u8 == (y >> 24u32) as u8,
            (x >> 16u32) as u8 == (y >> 16u32) as u8,
            (x >> 8u32) as u8 == (y >> 8u32) as u8,
            x as u8 == y as u8,
    ;
}

proof fn lemma_balance_key_injective(d1: Denom, a1: Seq<u8>, d2: Denom, a2: Seq<u8>)
    requires
        denom_key(d1) + a1 == denom_key(d2) + a2,
    ensures
        d1 == d2,
        a1 == a2,
{
    let k1 = denom_key(d1) + a1;
    let k2 = denom_key(d2) + a2;
    assert(k1.len() == k2.len());
    assert(k1.subrange(0, 5) =~= denom_key(d1));
    assert(k2.subrange(0, 5) =~= denom_key(d2));
    assert(k1.subrange(5, k1.len() as int) =~= a1);
    assert(k2.subrange(5, k2.len() as int) =~= a2);
    match d1 {
        Denom::Native => {
            assert(denom_key(d1)[0] == 0u8);
        },
        Denom::Asset(x) => {
            match d2 {
                Denom::Native => {
                    assert(denom_key(d2)[0] == 0u8);
                },
                Denom::Asset(y) => {
                    assert(denom_key(d1)[1] == denom_key(d2)[1]);
                    assert(denom_key(d1)[2] == denom_key(d2)[2]);
                    assert(denom_key(d1)[3] == denom_key(d2)[3]);
                    assert(denom_key(d1)[4] == denom_key(d2)[4]);
                    lemma_u32_bytes(x, y);
                },
            }
        },
    }
}

fn balance_key(d: Denom, account: &Vec<u8>) -> (r: Vec<u8>)
    ensures
        r@ == denom_key(d) + account@,
{
    let mut r: Vec<u8> = match d {
        Denom::Native => vec![0u8, 0u8, 0u8, 0u8, 0u8],
        Denom::Asset(id) => vec![1u8, (id >> 24u32) as u8, (id >> 16u32) as u8, (id >> 8u32) as u8, id as u8],
    };
    assert(r@ =~= denom_key(d));
    append_bytes_to(&mut r, account);
    r
}

/// The balances of all accounts, in the native token and in each asset.
pub struct Ledger {
    table: ByteTable<u128>,
}

impl Ledger {
    pub closed spec fn wf(&self) -> bool {
        self.table.wf()
    }

    /// The balance of `account` in `d`; an account never credited holds 0.
    pub closed spec fn balance(&self, d: Denom, account: Seq<u8>) -> u128 {
        let k = denom_key(d) + account;
        if self.table@.contains_key(k) {
            self.table@[k]
        } else {
            0
        }
    }

    /// A ledger in which every balance is 0.
    pub fn new() -> (r: Self)
        ensures
            r.wf(),
            forall|d: Denom, a: Seq<u8>| #[trigger] r.balance(d, a) == 0,
    {
        Ledger { table: ByteTable::new() }
    }

    /// The balance of `account` in `d`.
    pub fn balance_of(&self, d: Denom, account: &Vec<u8>) -> (r: u128)
        requires
            self.wf(),
        ensures
            r == self.balance(d, account@),
    {
        let k = balance_key(d, account);
        match self.table.get(&k) {
            Some(v) => *v,
            None => 0,
        }
    }

    fn set_balance(&mut self, d: Denom, account: &Vec<u8>, amount: u128)
        requires
            old(self).wf(),
        ensures
            final(self).wf(),
            final(self).balance(d, account@) == amount,
            forall|d2: Denom, a2: Seq<u8>|
                (d2, a2) != (d, account@) ==> #[trigger] final(self).balance(d2, a2) == old(self).balance(d2, a2),
    {
        let k = balance_key(d, account);
        self.table.insert(k, amount);
        assert forall|d2: Denom, a2: Seq<u8>|
            (d2, a2) != (d, account@) implies #[trigger] self.balance(d2, a2) == old(self).balance(
            d2,
            a2,
        ) by {
            if denom_key(d2) + a2 == denom_key(d) + account@ {
                lemma_balance_key_injective(d2, a2, d, account@);
            }
        }
    }

    /// Credits `amount` of `d` to `to`; refused with `Overflow`, changing
    /// nothing, where the balance would exceed its range.
    pub fn mint(&mut self, d: Denom, to: &Vec<u8>, amount: u128) -> (r: Result<(), Error>)
        requires
            old(self).wf(),
        ensures
            final(self).wf(),
            old(self).balance(d, to@) + amount > u128::MAX ==> r == Err::<(), Error>(
                Error::Overflow,
            ) && *final(self) == *old(self),
            old(self).balance(d, to@) + amount <= u128::MAX ==> r == Ok::<(), Error>(()) && final(self).balance(d, to@) == old(self).balance(d, to@) + amount,
            forall|d2: Denom, a2: Seq<u8>|
                (d2, a2) != (d, to@) ==> #[trigger] final(self).balance(d2, a2) == old(self).balance(
                    d2,
                    a2,
                ),
    {
        let b = self.balance_of(d, to);
        if b > u128::MAX - amount {
            return Err(Error::Overflow);
        }
        self.set_balance(d, to, b + amount);
        Ok(())
    }

    /// Debits `amount` of `d` from `from`; refused with `InsufficientFunds`,
    /// changing nothing, where the balance is smaller.
    pub fn burn(&mut self, d: Denom, from: &Vec<u8>, amount: u128) -> (r: Result<(), Error>)
        requires
            old(self).wf(),
        ensures
            final(self).wf(),
            old(self).balance(d, from@) < amount ==> r == Err::<(), Error>(
                Error::InsufficientFunds,
            ) && *final(self) == *old(self),
            old(self).balance(d, from@) >= amount ==> r == Ok::<(), Error>(()) && final(self).balance(d, from@) == old(self).balance(d, from@) - amount,
            forall|d2: Denom, a2: Seq<u8>|
                (d2, a2) != (d, from@) ==> #[trigger] final(self).balance(d2, a2) == old(self).balance(d2, a2),
    {
        let b = self.balance_of(d, from);
        if b < amount {
            return Err(Error::InsufficientFunds);
        }
        self.set_balance(d, from, b - amount);
        Ok(())
    }

    /// Moves `amount` of `d` from `from` to `to`. Refused, changing nothing, with
    /// `InsufficientFunds` where `from` holds less, or with `Overflow` where the
    /// balance of `to` would exceed its range.
    pub fn transfer(&mut self, d: Denom, from: &Vec<u8>, to: &Vec<u8>, amount: u128) -> (r: Result<(), Error>)
        requires
            old(self).wf(),
        ensures
            final(self).wf(),
            old(self).balance(d, from@) < amount ==> r == Err::<(), Error>(
                Error::InsufficientFunds,
            ) && *final(self) == *old(self),
            old(self).balance(d, from@) >= amount && from@ != to@ && old(self).balance(d, to@)
                + amount > u128::MAX ==> r == Err::<(), Error>(Error::Overflow) && *final(self) == *old(self),
            old(self).balance(d, from@) >= amount && (from@ == to@ || old(self).balance(d, to@)
                + amount <= u128::MAX) ==> r == Ok::<(), Error>(()),
            r is Ok && from@ != to@ ==> final(self).balance(d, from@) == old(self).balance(d, from@)
                - amount && final(self).balance(d, to@) == old(self).balance(d, to@) + amount,
            r is Ok && from@ == to@ ==> final(self).balance(d, from@) == old(self).balance(d, from@),
            forall|d2: Denom, a2: Seq<u8>|
                (d2, a2) != (d, from@) && (d2, a2) != (d, to@) ==> #[trigger] final(self).balance(
                    d2,
                    a2,
                ) == old(self).balance(d2, a2),
    {
        let bf = self.balance_of(d, from);
        if bf < amount {
            return Err(Error::InsufficientFunds);
        }
        if crate::table::bytes_eq(from, to) {
            return Ok(());
        }
        let bt = self.balance_of(d, to);
        if bt > u128::MAX - amount {
            return Err(Error::Overflow);
        }
        self.set_balance(d, from, bf - amount);
        self.set_balance(d, to, bt + amount);
        Ok(())
    }
}

} // verus!
