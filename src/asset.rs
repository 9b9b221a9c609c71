use vstd::prelude::*;

verus! {

/// One asset leg: a native coin amount, a fungible token amount, or one
/// non-fungible token.
#[derive(Clone, Debug, PartialEq, Eq)]
pub enum AssetKind {
    NativeAmount { denom: String, amount: u128 },
    FungibleAmount { contract: String, amount: u128 },
    NonFungibleUnit { contract: String, token_id: String },
}

/// An instruction to move one asset out of the contract's custody.
#[derive(Clone, Debug, PartialEq, Eq)]
pub struct Transfer {
    pub recipient: String,
    pub asset: AssetKind,
}

impl AssetKind {
    /// Both items denote the same physical asset: same kind, same identity.
    pub open spec fn same_asset(self, other: AssetKind) -> bool {
        match (self, other) {
            (
                AssetKind::NativeAmount { denom: a, .. },
                AssetKind::NativeAmount { denom: b, .. },
            ) => a@ == b@,
            (
                AssetKind::FungibleAmount { contract: a, .. },
                AssetKind::FungibleAmount { contract: b, .. },
            ) => a@ == b@,
            (
                AssetKind::NonFungibleUnit { contract: a, token_id: s },
                AssetKind::NonFungibleUnit { contract: b, token_id: t },
            ) => a@ == b@ && s@ == t@,
            _ => false,
        }
    }

    /// How many units of its asset the item stands for.
    pub open spec fn units(self) -> int {
        match self {
            AssetKind::NativeAmount { amount, .. } => amount as int,
            AssetKind::FungibleAmount { amount, .. } => amount as int,
            AssetKind::NonFungibleUnit { .. } => 1,
        }
    }

    /// Amounts are strictly positive.
    pub open spec fn well_formed(self) -> bool {
        self.units() > 0
    }

    pub fn is_same_asset(&self, other: &AssetKind) -> (r: bool)
        ensures
            r == self.same_asset(*other),
    {
        match (self, other) {
            (
                AssetKind::NativeAmount { denom: a, .. },
                AssetKind::NativeAmount { denom: b, .. },
            ) => *a == *b,
            (
                AssetKind::FungibleAmount { contract: a, .. },
                AssetKind::FungibleAmount { contract: b, .. },
            ) => *a == *b,
            (
                AssetKind::NonFungibleUnit { contract: a, token_id: s },
                AssetKind::NonFungibleUnit { contract: b, token_id: t },
            ) => *a == *b && *s == *t,
            _ => false,
        }
    }

    pub fn units_of(&self) -> (r: u128)
        ensures
            r as int == self.units(),
    {
        match self {
            AssetKind::NativeAmount { amount, .. } => *amount,
            AssetKind::FungibleAmount { amount, .. } => *amount,
            AssetKind::NonFungibleUnit { .. } => 1,
        }
    }

    /// An exact copy of the item.
    pub fn duplicate(&self) -> (r: AssetKind)
        ensures
            r == *self,
    {
        match self {
            AssetKind::NativeAmount { denom, amount } => AssetKind::NativeAmount {
                denom: denom.clone(),
                amount: *amount,
            },
            AssetKind::FungibleAmount { contract, amount } => AssetKind::FungibleAmount {
                contract: contract.clone(),
                amount: *amount,
            },
            AssetKind::NonFungibleUnit { contract, token_id } => AssetKind::NonFungibleUnit {
                contract: contract.clone(),
                token_id: token_id.clone(),
            },
        }
    }
}

/// No physical asset appears twice.
pub open spec fn no_duplicates(b: Seq<AssetKind>) -> bool {
    forall|i: int, j: int| 0 <= i < j < b.len() ==> !(#[trigger] b[i]).same_asset(#[trigger] b[j])
}

/// Every item has a positive amount and no asset appears twice.
pub open spec fn valid_schedule(b: Seq<AssetKind>) -> bool {
    &&& forall|i: int| 0 <= i < b.len() ==> (#[trigger] b[i]).well_formed()
    &&& no_duplicates(b)
}

/// A trade leg: a non-empty valid schedule.
pub open spec fn valid_bundle(b: Seq<AssetKind>) -> bool {
    b.len() > 0 && valid_schedule(b)
}

pub fn is_valid_schedule(b: &Vec<AssetKind>) -> (r: bool)
    ensures
        r == valid_schedule(b@),
{
    let n = b.len();
    let mut i: usize = 0;
    while i < n
        invariant
            n == b@.len(),
            i <= n,
            forall|k: int| 0 <= k < i ==> (#[trigger] b@[k]).well_formed(),
            forall|k: int, l: int| 0 <= k < l < i ==> !(#[trigger] b@[k]).same_asset(#[trigger] b@[l]),
        decreases n - i,
    {
        if b[i].units_of() == 0 {
            return false;
        }
        let mut j: usize = 0;
        while j < i
            invariant
                n == b@.len(),
                j <= i < n,
                forall|k: int| 0 <= k < j ==> !(#[trigger] b@[k]).same_asset(b@[i as int]),
            decreases i - j,
        {
            if b[j].is_same_asset(&b[i]) {
                assert(!no_duplicates(b@)) by {
                    assert(b@[j as int].same_asset(b@[i as int]));
                }
                return false;
            }
            j += 1;
        }
        i += 1;
    }
    true
}

pub fn is_valid_bundle(b: &Vec<AssetKind>) -> (r: bool)
    ensures
        r == valid_bundle(b@),
{
    b.len() > 0 && is_valid_schedule(b)
}

/// The transfers that move each item of `b`, in order, to `recipient`.
pub open spec fn transfers_to(b: Seq<AssetKind>, recipient: String) -> Seq<Transfer> {
    Seq::new(b.len(), |i: int| Transfer { recipient, asset: b[i] })
}

/// The instruction that moves `asset` to `recipient`.
pub fn build_outbound(asset: &AssetKind, recipient: &String) -> (r: Transfer)
    ensures
        r == (Transfer { recipient: *recipient, asset: *asset }),
{
    Transfer { recipient: recipient.clone(), asset: asset.duplicate() }
}

/// Appends the transfers of every item of `b` to `recipient`.
pub fn push_transfers(out: &mut Vec<Transfer>, b: &Vec<AssetKind>, recipient: &String)
    ensures
        final(out)@ == old(out)@ + transfers_to(b@, *recipient),
{
    let ghost start = out@;
    let n = b.len();
    let mut i: usize = 0;
    while i < n
        invariant
            n == b@.len(),
            i <= n,
            out@ == start + transfers_to(b@.take(i as int), *recipient),
        decreases n - i,
    {
        let t = build_outbound(&b[i], recipient);
        out.push(t);
        i += 1;
        assert(transfers_to(b@.take(i as int), *recipient) =~= transfers_to(
            b@.take(i - 1),
            *recipient,
        ).push(t));
        assert(out@ =~= start + transfers_to(b@.take(i as int), *recipient));
    }
    assert(b@.take(n as int) =~= b@);
}

/// A copy of `a` followed by a copy of `b`.
pub fn concat(a: &Vec<AssetKind>, b: &Vec<AssetKind>) -> (r: Vec<AssetKind>)
    ensures
        r@ == a@ + b@,
{
    let mut r: Vec<AssetKind> = Vec::new();
    let mut i: usize = 0;
    while i < a.len()
        invariant
            i <= a@.len(),
            r@ == a@.take(i as int),
        decreases a@.len() - i,
    {
        r.push(a[i].duplicate());
        i += 1;
        assert(r@ =~= a@.take(i as int));
    }
    let mut j: usize = 0;
    while j < b.len()
        invariant
            j <= b@.len(),
            r@ == a@ + b@.take(j as int),
        decreases b@.len() - j,
    {
        r.push(b[j].duplicate());
        j += 1;
        assert(r@ =~= a@ + b@.take(j as int));
    }
    assert(a@.take(a@.len() as int) =~= a@);
    assert(b@.take(b@.len() as int) =~= b@);
    r
}

} // verus!
