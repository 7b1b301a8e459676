//! The verifier of operation batches.
//!
//! A round of `N` steps is only opened when the enclosing transaction already
//! holds all of its `N` operations, and no more. The verifier walks the
//! operations that follow the one being executed. Operations of other
//! programs are passed over. Until `N` operations have been accepted, each
//! operation of this program has to be of the awaited kind, carry an amount
//! on the first occurrence only, and name the same wallet as the first. After
//! that, a further operation of the awaited kind is refused.

use vstd::prelude::*;
use crate::address::Address;
use crate::error::PoleError;

verus! {

/// One operation of the enclosing transaction.
#[derive(Clone, Debug, PartialEq, Eq)]
pub struct BatchOperation {
    /// The program that the operation is addressed to.
    pub program_id: Address,
    /// The accounts that the operation names, in order.
    pub accounts: Vec<Address>,
    /// The operation's payload: eight bytes that tell its kind, then its
    /// arguments.
    pub data: Vec<u8>,
}

/// The kind of operation that a round is made of.
#[derive(Clone, Copy, Debug, PartialEq, Eq, Structural)]
pub enum BatchKind {
    Deposit,
    Redeem,
}

/// The address of this program.
pub open spec fn spec_id() -> Seq<u8> {
    seq![
        5u8, 215u8, 42u8, 76u8, 3u8, 102u8, 179u8, 59u8, 209u8, 102u8, 181u8, 209u8, 120u8, 72u8,
        122u8, 207u8, 84u8, 242u8, 95u8, 107u8, 132u8, 111u8, 89u8, 219u8, 244u8, 26u8, 16u8, 61u8,
        163u8, 87u8, 116u8, 86u8,
    ]
}

/// The address of this program.
pub fn id() -> (r: Address)
    ensures
        r.bytes@ == spec_id(),
{
    let r = Address {
        bytes: [
            5, 215, 42, 76, 3, 102, 179, 59, 209, 102, 181, 209, 120, 72, 122, 207, 84, 242, 95,
            107, 132, 111, 89, 219, 244, 26, 16, 61, 163, 87, 116, 86,
        ],
    };
    assert(r.bytes@ =~= spec_id());
    r
}

impl BatchKind {
    /// The eight bytes that open the payload of an operation of this kind.
    pub open spec fn spec_sighash(&self) -> Seq<u8> {
        match self {
            BatchKind::Deposit => seq![245u8, 99u8, 59u8, 25u8, 151u8, 71u8, 233u8, 249u8],
            BatchKind::Redeem => seq![180u8, 117u8, 142u8, 137u8, 227u8, 225u8, 97u8, 211u8],
        }
    }

    /// The eight bytes that open the payload of an operation of this kind.
    pub fn sighash(&self) -> (r: [u8; 8])
        ensures
            r@ == self.spec_sighash(),
    {
        let r: [u8; 8] = match self {
            BatchKind::Deposit => [245, 99, 59, 25, 151, 71, 233, 249],
            BatchKind::Redeem => [180, 117, 142, 137, 227, 225, 97, 211],
        };
        assert(r@ =~= self.spec_sighash());
        r
    }

    /// Where, among the accounts of an operation of this kind, the caller's
    /// wallet stands.
    pub open spec fn spec_wallet_index(&self) -> usize {
        match self {
            BatchKind::Deposit => 2,
            BatchKind::Redeem => 6,
        }
    }

    #[verifier::when_used_as_spec(spec_wallet_index)]
    pub fn wallet_index(&self) -> (r: usize)
        ensures
            r == self.spec_wallet_index(),
    {
        match self {
            BatchKind::Deposit => 2,
            BatchKind::Redeem => 6,
        }
    }

    /// The failure that an amount out of place is reported as.
    pub open spec fn spec_amount_error(&self) -> PoleError {
        match self {
            BatchKind::Deposit => PoleError::DepositAmountInvalid,
            BatchKind::Redeem => PoleError::RedeemAmountInvalid,
        }
    }

    #[verifier::when_used_as_spec(spec_amount_error)]
    pub fn amount_error(&self) -> (r: PoleError)
        ensures
            r == self.spec_amount_error(),
    {
        match self {
            BatchKind::Deposit => PoleError::DepositAmountInvalid,
            BatchKind::Redeem => PoleError::RedeemAmountInvalid,
        }
    }

    /// The failure that a wallet other than the first is reported as.
    pub open spec fn spec_wallet_error(&self) -> PoleError {
        match self {
            BatchKind::Deposit => PoleError::WrongWallet,
            BatchKind::Redeem => PoleError::InvalidTransaction,
        }
    }

    #[verifier::when_used_as_spec(spec_wallet_error)]
    pub fn wallet_error(&self) -> (r: PoleError)
        ensures
            r == self.spec_wallet_error(),
    {
        match self {
            BatchKind::Deposit => PoleError::WrongWallet,
            BatchKind::Redeem => PoleError::InvalidTransaction,
        }
    }
}

/// The integer that eight bytes hold, least significant byte first.
pub open spec fn le_u64(bytes: Seq<u8>) -> nat {
    (bytes[0] as nat) + (bytes[1] as nat) * 0x100 + (bytes[2] as nat) * 0x1_0000 + (bytes[3] as nat)
        * 0x100_0000 + (bytes[4] as nat) * 0x1_0000_0000 + (bytes[5] as nat) * 0x100_0000_0000 + (
    bytes[6] as nat) * 0x1_0000_0000_0000 + (bytes[7] as nat) * 0x100_0000_0000_0000
}

/// Whether a payload opens with the eight bytes of `kind`.
pub open spec fn has_sighash(data: Seq<u8>, kind: BatchKind) -> bool {
    data.len() >= 8 && data.subrange(0, 8) == kind.spec_sighash()
}

/// The amount that a payload carries after its first eight bytes, if it holds
/// the eight bytes of one. Bytes after the amount are not looked at.
pub open spec fn payload_amount(data: Seq<u8>) -> Option<u64> {
    if data.len() >= 16 {
        Some(le_u64(data.subrange(8, 16)) as u64)
    } else {
        None
    }
}

/// Whether a payload opens with the eight bytes of `kind`.
pub fn payload_is(data: &Vec<u8>, kind: BatchKind) -> (r: bool)
    ensures
        r == has_sighash(data@, kind),
{
    if data.len() < 8 {
        return false;
    }
    let expected = kind.sighash();
    let mut i: usize = 0;
    while i < 8
        invariant
            i <= 8,
            data@.len() >= 8,
            expected@ == kind.spec_sighash(),
            forall|j: int| 0 <= j < i ==> data@[j] == expected@[j],
        decreases 8 - i,
    {
        if data[i] != expected[i] {
            assert(data@.subrange(0, 8)[i as int] != kind.spec_sighash()[i as int]);
            return false;
        }
        i += 1;
    }
    assert(data@.subrange(0, 8) =~= kind.spec_sighash());
    true
}

/// Decodes the amount that a payload carries after its first eight bytes.
pub fn decode_amount(data: &Vec<u8>) -> (r: Option<u64>)
    ensures
        r == payload_amount(data@),
{
    if data.len() < 16 {
        return None;
    }
    let b0: u64 = data[8] as u64;
    let b1: u64 = data[9] as u64;
    let b2: u64 = data[10] as u64;
    let b3: u64 = data[11] as u64;
    let b4: u64 = data[12] as u64;
    let b5: u64 = data[13] as u64;
    let b6: u64 = data[14] as u64;
    let b7: u64 = data[15] as u64;
    let low: u64 = b0 + b1 * 0x100 + b2 * 0x1_0000 + b3 * 0x100_0000;
    let high: u64 = b4 + b5 * 0x100 + b6 * 0x1_0000 + b7 * 0x100_0000;
    Some(low + high * 0x1_0000_0000)
}

/// What the verifier makes of one operation of this program, when `count`
/// operations have been accepted before it and `approved` is the wallet of
/// the first of them: the wallet that the round is approved for, or the
/// reason for which the batch is refused.
pub open spec fn examined(
    op: &BatchOperation,
    kind: BatchKind,
    count: nat,
    approved: Option<Address>,
) -> Result<Address, PoleError> {
    if !has_sighash(op.data@, kind) {
        Err(PoleError::InvalidTransaction)
    } else {
        match payload_amount(op.data@) {
            None => Err(PoleError::InstructionDidNotDeserialize),
            Some(amount) => if (amount > 0) != (count == 0) {
                Err(kind.spec_amount_error())
            } else if op.accounts@.len() <= kind.spec_wallet_index() {
                Err(PoleError::InvalidTransaction)
            } else {
                let wallet = op.accounts@[kind.spec_wallet_index() as int];
                match approved {
                    None => Ok(wallet),
                    Some(first) => if first == wallet {
                        Ok(wallet)
                    } else {
                        Err(kind.spec_wallet_error())
                    },
                }
            },
        }
    }
}

/// Whether an operation is addressed to this program.
pub open spec fn is_own(op: &BatchOperation) -> bool {
    op.program_id.bytes@ == spec_id()
}

/// Whether an operation is of the awaited kind.
pub open spec fn awaited(op: &BatchOperation, kind: BatchKind) -> bool {
    has_sighash(op.data@, kind)
}

/// What the verifier makes of the operations `ops`, walked in order, when
/// `count` operations of this program have been accepted before them.
/// Operations of other programs are passed over. While fewer than `required`
/// have been accepted, an operation of this program is examined and the walk
/// fails if it is refused. Once `required` have been accepted, one more of
/// the awaited kind is an invalid transaction. At the end of the batch the
/// count has to be `required`.
pub open spec fn walked(
    ops: Seq<BatchOperation>,
    kind: BatchKind,
    required: nat,
    count: nat,
    approved: Option<Address>,
) -> Result<Option<Address>, PoleError>
    decreases ops.len(),
{
    if ops.len() == 0 {
        if count == required {
            Ok(approved)
        } else {
            Err(PoleError::InvalidTransaction)
        }
    } else if !is_own(&ops[0]) {
        walked(ops.skip(1), kind, required, count, approved)
    } else if count == required {
        if awaited(&ops[0], kind) {
            Err(PoleError::InvalidTransaction)
        } else {
            walked(ops.skip(1), kind, required, count, approved)
        }
    } else {
        match examined(&ops[0], kind, count, approved) {
            Err(e) => Err(e),
            Ok(wallet) => walked(ops.skip(1), kind, required, count + 1, Some(wallet)),
        }
    }
}

/// What the verifier makes of a whole batch.
pub open spec fn batch_verdict(ops: Seq<BatchOperation>, kind: BatchKind, required: nat) -> Result<
    Option<Address>,
    PoleError,
> {
    walked(ops, kind, required, 0, None)
}

/// Examines one operation of this program.
pub fn examine(op: &BatchOperation, kind: BatchKind, count: u64, approved: &Option<Address>) -> (r:
    Result<Address, PoleError>)
    ensures
        r == examined(op, kind, count as nat, *approved),
{
    if !payload_is(&op.data, kind) {
        return Err(PoleError::InvalidTransaction);
    }
    let amount: u64 = match decode_amount(&op.data) {
        Some(v) => v,
        None => { return Err(PoleError::InstructionDidNotDeserialize); },
    };
    if (amount > 0) != (count == 0) {
        return Err(kind.amount_error());
    }
    if op.accounts.len() <= kind.wallet_index() {
        return Err(PoleError::InvalidTransaction);
    }
    let wallet = op.accounts[kind.wallet_index()];
    match approved {
        None => Ok(wallet),
        Some(first) => if first.same(&wallet) {
            Ok(wallet)
        } else {
            Err(kind.wallet_error())
        },
    }
}

/// Verifies a batch: walks all of `ops` for exactly `required` operations of
/// `kind` and returns the wallet that they name, which is none only when no
/// operation was required.
pub fn verify_batch(ops: &Vec<BatchOperation>, kind: BatchKind, required: u64) -> (r: Result<
    Option<Address>,
    PoleError,
>)
    ensures
        r == batch_verdict(ops@, kind, required as nat),
{
    let own = id();
    let mut count: u64 = 0;
    let mut approved: Option<Address> = None;
    let mut i: usize = 0;
    assert(ops@.skip(0) =~= ops@);
    while i < ops.len()
        invariant
            i <= ops.len(),
            count <= required,
            own.bytes@ == spec_id(),
            batch_verdict(ops@, kind, required as nat) == walked(
                ops@.skip(i as int),
                kind,
                required as nat,
                count as nat,
                approved,
            ),
        decreases ops.len() - i,
    {
        let op = &ops[i];
        assert(ops@.skip(i as int)[0] == ops@[i as int]);
        assert(ops@.skip(i as int).skip(1) =~= ops@.skip(i + 1));
        if op.program_id.same(&own) {
            assert(is_own(op));
            if count == required {
                if payload_is(&op.data, kind) {
                    return Err(PoleError::InvalidTransaction);
                }
            } else {
                let wallet = examine(op, kind, count, &approved)?;
                count += 1;
                approved = Some(wallet);
            }
        } else {
            assert(!is_own(op)) by {
                if op.program_id.bytes@ == spec_id() {
                    assert(op.program_id.bytes =~= own.bytes);
                }
            }
        }
        i += 1;
    }
    if count == required {
        Ok(approved)
    } else {
        Err(PoleError::InvalidTransaction)
    }
}

/// The operations of this program among `ops`, in order.
pub open spec fn own_operations(ops: Seq<BatchOperation>) -> Seq<BatchOperation>
    decreases ops.len(),
{
    if ops.len() == 0 {
        Seq::empty()
    } else if is_own(&ops[0]) {
        seq![ops[0]] + own_operations(ops.skip(1))
    } else {
        own_operations(ops.skip(1))
    }
}

/// Whether an operation has the shape of the operation of `kind` that stands
/// at `position` in its round and names `wallet`: it is of that kind, it
/// carries an amount if and only if it is the first, and the wallet it names
/// is `wallet`.
pub open spec fn well_shaped(op: &BatchOperation, kind: BatchKind, position: nat, wallet: Address)
    -> bool {
    &&& awaited(op, kind)
    &&& payload_amount(op.data@) matches Some(amount) && ((amount > 0) == (position == 0))
    &&& op.accounts@.len() > kind.spec_wallet_index()
    &&& op.accounts@[kind.spec_wallet_index() as int] == wallet
}

/// Whether none of the operations `own` from position `from` on is of the
/// awaited kind.
pub open spec fn none_awaited(own: Seq<BatchOperation>, kind: BatchKind, from: int) -> bool {
    forall|k: int| from <= k < own.len() ==> !#[trigger] awaited(&own[k], kind)
}

/// The walk, once all required operations have been accepted: it ends well,
/// with the wallet approved so far, exactly when no operation of this
/// program that follows is of the awaited kind.
pub proof fn lemma_walk_after_the_last(
    ops: Seq<BatchOperation>,
    kind: BatchKind,
    required: nat,
    approved: Option<Address>,
)
    ensures
        walked(ops, kind, required, required, approved) is Ok <==> none_awaited(
            own_operations(ops),
            kind,
            0,
        ),
        walked(ops, kind, required, required, approved) matches Ok(verdict) ==> verdict
            == approved,
    decreases ops.len(),
{
    let own = own_operations(ops);
    if ops.len() == 0 {
    } else {
        lemma_walk_after_the_last(ops.skip(1), kind, required, approved);
        let rest = own_operations(ops.skip(1));
        if is_own(&ops[0]) {
            assert(own == seq![ops[0]] + rest);
            assert(own[0] == ops[0]);
            assert(forall|k: int| 1 <= k < own.len() ==> own[k] == rest[k - 1]);
            if awaited(&ops[0], kind) {
                assert(awaited(&own[0], kind));
            } else {
                if none_awaited(rest, kind, 0) {
                    assert forall|k: int| 0 <= k < own.len() implies !#[trigger] awaited(
                        &own[k],
                        kind,
                    ) by {
                        if k > 0 {
                            assert(!awaited(&rest[k - 1], kind));
                        }
                    }
                }
                if none_awaited(own, kind, 0) {
                    assert forall|k: int| 0 <= k < rest.len() implies !#[trigger] awaited(
                        &rest[k],
                        kind,
                    ) by {
                        assert(!awaited(&own[k + 1], kind));
                    }
                }
            }
        }
    }
}

/// The walk, from any point before the last required operation: it approves
/// `wallet` exactly when the operations of this program that follow begin
/// with all that are still required, each of them well shaped for its
/// position and naming `wallet`, which is also the wallet approved so far if
/// there is one, and none of the others is of the awaited kind.
pub proof fn lemma_walk_accepts_the_well_shaped(
    ops: Seq<BatchOperation>,
    kind: BatchKind,
    required: nat,
    count: nat,
    approved: Option<Address>,
    wallet: Address,
)
    requires
        count < required,
    ensures
        walked(ops, kind, required, count, approved) == Ok::<Option<Address>, PoleError>(
            Some(wallet),
        ) <==> {
            &&& own_operations(ops).len() >= required - count
            &&& approved matches Some(first) ==> first == wallet
            &&& forall|k: int|
                0 <= k < required - count ==> well_shaped(
                    &#[trigger] own_operations(ops)[k],
                    kind,
                    (count + k) as nat,
                    wallet,
                )
            &&& none_awaited(own_operations(ops), kind, required - count)
        },
    decreases ops.len(),
{
    let own = own_operations(ops);
    let left = required - count;
    if ops.len() == 0 {
    } else if is_own(&ops[0]) {
        let rest = own_operations(ops.skip(1));
        assert(own == seq![ops[0]] + rest);
        assert(own[0] == ops[0]);
        assert(forall|k: int| 1 <= k < own.len() ==> own[k] == rest[k - 1]);
        match examined(&ops[0], kind, count, approved) {
            Err(_) => {
                if own.len() >= left {
                    assert(!well_shaped(&own[0], kind, (count + 0) as nat, wallet) || !(
                    approved matches Some(first) ==> first == wallet));
                }
            },
            Ok(named) => {
                assert(well_shaped(&own[0], kind, (count + 0) as nat, wallet) <==> named
                    == wallet);
                if count + 1 == required {
                    lemma_walk_after_the_last(ops.skip(1), kind, required, Some(named));
                    if none_awaited(rest, kind, 0) {
                        assert forall|k: int| left <= k < own.len() implies !#[trigger] awaited(
                            &own[k],
                            kind,
                        ) by {
                            assert(!awaited(&rest[k - 1], kind));
                        }
                    }
                    if none_awaited(own, kind, left) {
                        assert forall|k: int| 0 <= k < rest.len() implies !#[trigger] awaited(
                            &rest[k],
                            kind,
                        ) by {
                            assert(!awaited(&own[k + 1], kind));
                        }
                    }
                } else {
                    lemma_walk_accepts_the_well_shaped(
                        ops.skip(1),
                        kind,
                        required,
                        count + 1,
                        Some(named),
                        wallet,
                    );
                    if walked(ops, kind, required, count, approved) == Ok::<
                        Option<Address>,
                        PoleError,
                    >(Some(wallet)) {
                        assert forall|k: int| 0 <= k < left implies well_shaped(
                            &#[trigger] own[k],
                            kind,
                            (count + k) as nat,
                            wallet,
                        ) by {
                            if k > 0 {
                                assert(well_shaped(
                                    &rest[k - 1],
                                    kind,
                                    (count + 1 + (k - 1)) as nat,
                                    wallet,
                                ));
                            }
                        }
                        assert forall|k: int| left <= k < own.len() implies !#[trigger] awaited(
                            &own[k],
                            kind,
                        ) by {
                            assert(!awaited(&rest[k - 1], kind));
                        }
                    }
                    if own.len() >= left && (approved matches Some(first) ==> first == wallet) && (
                    forall|k: int|
                        0 <= k < left ==> well_shaped(
                            &#[trigger] own[k],
                            kind,
                            (count + k) as nat,
                            wallet,
                        )) && none_awaited(own, kind, left) {
                        assert(well_shaped(&own[0], kind, (count + 0) as nat, wallet));
                        assert forall|k: int| 0 <= k < left - 1 implies well_shaped(
                            &#[trigger] rest[k],
                            kind,
                            (count + 1 + k) as nat,
                            wallet,
                        ) by {
                            assert(well_shaped(&own[k + 1], kind, (count + (k + 1)) as nat, wallet));
                        }
                        assert forall|k: int| left - 1 <= k < rest.len() implies !#[trigger] awaited(
                            &rest[k],
                            kind,
                        ) by {
                            assert(!awaited(&own[k + 1], kind));
                        }
                    }
                }
            },
        }
    } else {
        lemma_walk_accepts_the_well_shaped(ops.skip(1), kind, required, count, approved, wallet);
    }
}

/// What the verifier accepts. A batch that has to hold at least one
/// operation is approved for `wallet` exactly when the operations of this
/// program in it that are of the awaited kind are its first `required`
/// operations and no others, so that they number exactly `required`, and
/// carry an amount on the first only, and all name `wallet`.
pub proof fn lemma_batch_accepted_iff_well_shaped(
    ops: Seq<BatchOperation>,
    kind: BatchKind,
    required: nat,
    wallet: Address,
)
    requires
        required >= 1,
    ensures
        batch_verdict(ops, kind, required) == Ok::<Option<Address>, PoleError>(Some(wallet)) <==> {
            &&& own_operations(ops).len() >= required
            &&& forall|k: int|
                0 <= k < required ==> well_shaped(
                    &#[trigger] own_operations(ops)[k],
                    kind,
                    k as nat,
                    wallet,
                )
            &&& none_awaited(own_operations(ops), kind, required as int)
        },
{
    lemma_walk_accepts_the_well_shaped(ops, kind, required, 0, None, wallet);
}

/// A batch with one operation of the awaited kind too many is refused: where
/// more than `required` operations of this program are of the awaited kind,
/// the verdict is a failure.
pub proof fn lemma_batch_refuses_one_too_many(
    ops: Seq<BatchOperation>,
    kind: BatchKind,
    required: nat,
    extra: int,
)
    requires
        required >= 1,
        required <= extra < own_operations(ops).len(),
        awaited(&own_operations(ops)[extra], kind),
    ensures
        batch_verdict(ops, kind, required) is Err,
{
    lemma_batch_names_a_wallet(ops, kind, required, 0, None);
    if let Ok(Some(wallet)) = batch_verdict(ops, kind, required) {
        lemma_batch_accepted_iff_well_shaped(ops, kind, required, wallet);
    }
}

/// A batch that has to hold at least one operation is never approved without
/// a wallet.
pub proof fn lemma_batch_names_a_wallet(
    ops: Seq<BatchOperation>,
    kind: BatchKind,
    required: nat,
    count: nat,
    approved: Option<Address>,
)
    requires
        count < required || approved is Some,
        count <= required,
    ensures
        walked(ops, kind, required, count, approved) matches Ok(verdict) ==> verdict is Some,
    decreases ops.len(),
{
    if ops.len() == 0 {
    } else if !is_own(&ops[0]) {
        lemma_batch_names_a_wallet(ops.skip(1), kind, required, count, approved);
    } else if count == required {
        lemma_batch_names_a_wallet(ops.skip(1), kind, required, count, approved);
    } else {
        if let Ok(named) = examined(&ops[0], kind, count, approved) {
            lemma_batch_names_a_wallet(ops.skip(1), kind, required, count + 1, Some(named));
        }
    }
}

} // verus!
