//! The vault's configuration and each depositor's ledger.

use vstd::prelude::*;

verus! {

/// How many entries one ledger can hold.
pub const MAX_DEPOSITS: usize = 10;

/// One launch: its parameters and its running totals.
#[derive(Clone, Copy, Debug, PartialEq, Eq)]
pub struct Vault {
    pub total_deposited: u64,
    pub total_nfts: u64,
    pub recipient: [u8; 32],
    pub max_mint_amount: u8,
    pub whitelist_max_mint_amount: u8,
    pub max_unit_price: u64,
    pub min_unit_price: u64,
    pub start_time: i64,
    pub end_time: i64,
    pub owner: [u8; 32],
    pub merkle_root: [u8; 32],
}

impl Vault {
    /// The window is not empty and starts after time zero, and the price range
    /// is not empty.
    pub open spec fn wf(&self) -> bool {
        &&& 0 < self.start_time < self.end_time
        &&& self.min_unit_price <= self.max_unit_price
    }

    /// Whether the vault is well formed.
    pub fn is_wf(&self) -> (ok: bool)
        ensures
            ok == self.wf(),
    {
        0 < self.start_time && self.start_time < self.end_time && self.min_unit_price
            <= self.max_unit_price
    }
}

/// One deposit: the units reserved, what was paid for them, and when.
#[derive(Clone, Copy, Debug, PartialEq, Eq)]
pub struct DepositInfo {
    pub nft_amount: u8,
    pub deposit_amount: u64,
    pub timestamp: i64,
}

impl DepositInfo {
    /// What one unit of this entry was paid at, rounded down.
    pub open spec fn unit_price(&self) -> int
        recommends
            self.nft_amount > 0,
    {
        self.deposit_amount as int / self.nft_amount as int
    }
}

/// The units that `entries` reserve together.
pub open spec fn total_units(entries: Seq<DepositInfo>) -> int
    decreases entries.len(),
{
    if entries.len() == 0 {
        0
    } else {
        total_units(entries.drop_last()) + entries.last().nft_amount
    }
}

/// What was paid for `entries` together.
pub open spec fn total_paid(entries: Seq<DepositInfo>) -> int
    decreases entries.len(),
{
    if entries.len() == 0 {
        0
    } else {
        total_paid(entries.drop_last()) + entries.last().deposit_amount
    }
}

/// One depositor's ledger in one vault: the entries in the order they were
/// made, and their totals.
#[derive(Clone, Debug, PartialEq, Eq)]
pub struct UserDeposit {
    pub user: [u8; 32],
    pub total_nft_amount: u8,
    pub total_deposit_amount: u64,
    pub deposits: Vec<DepositInfo>,
    pub vault: [u8; 32],
}

/// A ledger as a mathematical value.
pub struct Ledger {
    pub user: [u8; 32],
    pub total_nft_amount: u8,
    pub total_deposit_amount: u64,
    pub deposits: Seq<DepositInfo>,
    pub vault: [u8; 32],
}

impl View for UserDeposit {
    type V = Ledger;

    open spec fn view(&self) -> Ledger {
        Ledger {
            user: self.user,
            total_nft_amount: self.total_nft_amount,
            total_deposit_amount: self.total_deposit_amount,
            deposits: self.deposits@,
            vault: self.vault,
        }
    }
}

impl Ledger {
    /// The ledger is within its capacity, every entry reserves something, and
    /// the totals are the sums over the entries.
    pub open spec fn wf(self) -> bool {
        &&& self.deposits.len() <= MAX_DEPOSITS
        &&& forall|i: int| 0 <= i < self.deposits.len() ==> (#[trigger] self.deposits[i]).nft_amount > 0
        &&& self.total_nft_amount == total_units(self.deposits)
        &&& self.total_deposit_amount == total_paid(self.deposits)
    }
}

/// Appending an entry adds its units and its payment to the sums.
pub proof fn lemma_totals_push(entries: Seq<DepositInfo>, entry: DepositInfo)
    ensures
        total_units(entries.push(entry)) == total_units(entries) + entry.nft_amount,
        total_paid(entries.push(entry)) == total_paid(entries) + entry.deposit_amount,
{
    assert(entries.push(entry).drop_last() =~= entries);
}

/// Replacing the entry at `index` changes the sums by the difference between
/// the new entry and the old one.
pub proof fn lemma_totals_update(entries: Seq<DepositInfo>, index: int, entry: DepositInfo)
    requires
        0 <= index < entries.len(),
    ensures
        total_units(entries.update(index, entry)) == total_units(entries)
            - entries[index].nft_amount + entry.nft_amount,
        total_paid(entries.update(index, entry)) == total_paid(entries)
            - entries[index].deposit_amount + entry.deposit_amount,
    decreases entries.len(),
{
    let updated = entries.update(index, entry);
    if index == entries.len() - 1 {
        assert(updated.drop_last() =~= entries.drop_last());
    } else {
        lemma_totals_update(entries.drop_last(), index, entry);
        assert(updated.drop_last() =~= entries.drop_last().update(index, entry));
    }
}

impl UserDeposit {
    /// An empty ledger for `user` in `vault`.
    pub fn new(user: [u8; 32], vault: [u8; 32]) -> (ledger: UserDeposit)
        ensures
            ledger@ == (Ledger {
                user,
                total_nft_amount: 0,
                total_deposit_amount: 0,
                deposits: Seq::empty(),
                vault,
            }),
            ledger@.wf(),
    {
        UserDeposit {
            user,
            total_nft_amount: 0,
            total_deposit_amount: 0,
            deposits: Vec::new(),
            vault,
        }
    }

    /// Whether the ledger is well formed.
    pub fn is_wf(&self) -> (ok: bool)
        ensures
            ok == self@.wf(),
    {
        let n: usize = self.deposits.len();
        if n > MAX_DEPOSITS {
            return false;
        }
        let mut units: u64 = 0;
        let mut paid: u128 = 0;
        let mut i: usize = 0;
        while i < n
            invariant
                i <= n,
                n == self.deposits@.len(),
                n <= MAX_DEPOSITS,
                units == total_units(self.deposits@.take(i as int)),
                paid == total_paid(self.deposits@.take(i as int)),
                units <= 255 * i,
                paid <= u64::MAX * i,
                forall|k: int| 0 <= k < i ==> (#[trigger] self.deposits@[k]).nft_amount > 0,
            decreases n - i,
        {
            let entry = &self.deposits[i];
            if entry.nft_amount == 0 {
                return false;
            }
            proof {
                let prefix = self.deposits@.take(i as int);
                assert(self.deposits@.take(i + 1) =~= prefix.push(*entry));
                lemma_totals_push(prefix, *entry);
            }
            units = units + entry.nft_amount as u64;
            paid = paid + entry.deposit_amount as u128;
            i += 1;
        }
        assert(self.deposits@.take(n as int) =~= self.deposits@);
        units == self.total_nft_amount as u64 && paid == self.total_deposit_amount as u128
    }
}

} // verus!
