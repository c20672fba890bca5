//! Turning pending payments into transfers, batching them into transactions,
//! and the order in which a payment run signs, registers and sends them.

use vstd::prelude::*;

use crate::api::{BondPaymentsV2, PaymentInfo, SignatureUpdateRequest};
use crate::error::PyeCliError;
use crate::solana::{
    base58_address, decode_address, is_signing_of, is_transfer_instruction, legacy_message,
    signed_transaction_bytes, system_transfer, instruction_view, instructions_data,
    transfers_from, AccountRef, InstructionData, Payer, SignedTransaction, TransferInstruction,
};

verus! {

/// At most this many transfers go into one transaction.
pub const MAX_TRANSFERS_PER_TRANSACTION: usize = 50;

/// A transfer of `amount` lamports to the account `to`.
#[derive(Debug, Clone, Copy, PartialEq, Eq)]
pub struct TransferInfo {
    pub to: [u8; 32],
    pub amount: u64,
}

/// A transfer, the instruction that carries it out, and the payment it settles.
#[derive(Debug)]
pub struct TransferInstructionWithPaymentId {
    pub instruction: TransferInstruction,
    pub payment_id: String,
    pub transfer: TransferInfo,
}

/// What a payment asks to be transferred.
pub struct PlannedTransfer {
    pub payment_id: Seq<char>,
    pub to: Seq<u8>,
    pub amount: u64,
}

/// What is still owed on a payment: the expected amount less what was paid,
/// when that is more than zero.
pub open spec fn transfer_amount(p: BondPaymentsV2) -> Option<u64> {
    if p.amount < p.expected_amount {
        Some((p.expected_amount - p.amount) as u64)
    } else {
        None
    }
}

/// The transfers that settle `payments`: one for each payment on which
/// something is owed, in the payments' order, to the account that its bond
/// address names.
pub open spec fn planned_transfers(payments: Seq<BondPaymentsV2>) -> Seq<PlannedTransfer>
    decreases payments.len(),
{
    if payments.len() == 0 {
        Seq::empty()
    } else {
        let rest = planned_transfers(payments.drop_last());
        let p = payments.last();
        match transfer_amount(p) {
            Some(a) => rest.push(
                PlannedTransfer {
                    payment_id: p.id@,
                    to: base58_address(p.bond_pubkey@).unwrap(),
                    amount: a,
                },
            ),
            None => rest,
        }
    }
}

/// Every payment on which something is owed names its bond account by a
/// valid base58 address.
pub open spec fn bond_pubkeys_valid(payments: Seq<BondPaymentsV2>) -> bool {
    forall|i: int|
        0 <= i < payments.len() && (#[trigger] transfer_amount(payments[i])) is Some
            ==> base58_address(payments[i].bond_pubkey@) is Some
}

/// The transfer that a planned instruction carries.
pub open spec fn planned_view(t: TransferInstructionWithPaymentId) -> PlannedTransfer {
    PlannedTransfer { payment_id: t.payment_id@, to: t.transfer.to@, amount: t.transfer.amount }
}

/// The transfers of a batch.
pub open spec fn batch_view(batch: Seq<TransferInstructionWithPaymentId>) -> Seq<PlannedTransfer> {
    batch.map_values(|t: TransferInstructionWithPaymentId| planned_view(t))
}

/// The transfers of each batch.
pub open spec fn batches_view(batches: Seq<Vec<TransferInstructionWithPaymentId>>) -> Seq<
    Seq<PlannedTransfer>,
> {
    batches.map_values(|b: Vec<TransferInstructionWithPaymentId>| batch_view(b@))
}

/// `batches` cuts `items` into consecutive runs of `size`, in order; only the
/// last may be shorter, and none is empty.
pub open spec fn is_chunking<A>(batches: Seq<Seq<A>>, items: Seq<A>, size: nat) -> bool {
    &&& batches.flatten() == items
    &&& forall|k: int| 0 <= k < batches.len() ==> 0 < #[trigger] batches[k].len() <= size
    &&& forall|k: int| 0 <= k < batches.len() - 1 ==> #[trigger] batches[k].len() == size
}

/// Each transfer's instruction moves its amount from `payer` to its account.
pub open spec fn instructions_match(batch: Seq<TransferInstructionWithPaymentId>, payer: Seq<u8>) -> bool {
    forall|i: int|
        0 <= i < batch.len() ==> is_transfer_instruction(
            #[trigger] batch[i].instruction.spec_data(),
            payer,
            batch[i].transfer.to@,
            batch[i].transfer.amount,
        )
}

/// The payment records that go with a batch: the `i`-th names the payment of
/// the batch's `i`-th transfer and gives `i` as its instruction index.
pub open spec fn infos_match(infos: Seq<PaymentInfo>, batch: Seq<PlannedTransfer>) -> bool {
    &&& infos.len() == batch.len()
    &&& forall|i: int|
        0 <= i < infos.len() ==> (#[trigger] infos[i]).payment_id@ == batch[i].payment_id
            && infos[i].instruction_index == i
}

/// What a payment owes is fixed by its paid and expected amounts alone: when
/// less than expected was paid, the difference, which added to what was paid
/// makes the expected amount; otherwise nothing. No other field of the payment
/// (a Jito claim, a fee payer, a signature) changes it.
pub proof fn law_owed_amount(p: BondPaymentsV2, q: BondPaymentsV2)
    ensures
        p.amount < p.expected_amount ==> (transfer_amount(p) matches Some(a) && a > 0 && p.amount
            + a == p.expected_amount),
        p.amount >= p.expected_amount ==> transfer_amount(p) is None,
        p.amount == q.amount && p.expected_amount == q.expected_amount ==> transfer_amount(p)
            == transfer_amount(q),
{
}

/// No payments plan no transfers.
pub proof fn law_planned_transfers_of_nothing()
    ensures
        planned_transfers(Seq::empty()).len() == 0,
{
}

/// A payment added after others adds, after their transfers and leaving them
/// as they were, one transfer when less than expected was paid on it and none
/// otherwise. That transfer settles the payment under its id exactly as
/// written, moves what completes the paid amount to the expected one, and goes
/// to the address that the payment's bond text decodes to, whatever the
/// payment's other fields (such as its vote account) hold.
pub proof fn law_planned_transfers_push(ps: Seq<BondPaymentsV2>, p: BondPaymentsV2)
    ensures
        p.amount >= p.expected_amount ==> planned_transfers(ps.push(p)) == planned_transfers(ps),
        p.amount < p.expected_amount ==> {
            let r = planned_transfers(ps.push(p));
            &&& r.len() == planned_transfers(ps).len() + 1
            &&& r.drop_last() == planned_transfers(ps)
            &&& r.last().payment_id == p.id@
            &&& r.last().to == base58_address(p.bond_pubkey@).unwrap()
            &&& r.last().amount > 0
            &&& p.amount + r.last().amount == p.expected_amount
        },
{
    assert(ps.push(p).drop_last() =~= ps);
    if p.amount < p.expected_amount {
        let r = planned_transfers(ps.push(p));
        assert(r.drop_last() =~= planned_transfers(ps));
    }
}

/// No planned transfer moves zero lamports: each moves exactly what its
/// payment still owes, and a payment that owes nothing gets no transfer.
pub proof fn lemma_planned_amounts_positive(payments: Seq<BondPaymentsV2>)
    ensures
        forall|k: int|
            0 <= k < planned_transfers(payments).len() ==> (#[trigger] planned_transfers(
                payments,
            )[k]).amount > 0,
        planned_transfers(payments).len() <= payments.len(),
    decreases payments.len(),
{
    if payments.len() > 0 {
        lemma_planned_amounts_positive(payments.drop_last());
    }
}

/// A payment that owes nothing changes no transfer, wherever it stands among
/// the others.
pub proof fn lemma_settled_payment_changes_nothing(
    payments: Seq<BondPaymentsV2>,
    i: int,
    settled: BondPaymentsV2,
)
    requires
        0 <= i <= payments.len(),
        transfer_amount(settled) is None,
    ensures
        planned_transfers(payments.insert(i, settled)) == planned_transfers(payments),
    decreases payments.len(),
{
    let with = payments.insert(i, settled);
    if i == payments.len() {
        assert(with.drop_last() =~= payments);
    } else {
        lemma_settled_payment_changes_nothing(payments.drop_last(), i, settled);
        assert(with.drop_last() =~= payments.drop_last().insert(i, settled));
        assert(with.last() == payments.last());
    }
}

/// The length of the batch at the front of a chunking.
proof fn lemma_chunking_front(batches: Seq<Seq<PlannedTransfer>>, items: Seq<PlannedTransfer>, size: nat)
    requires
        is_chunking(batches, items, size),
        batches.len() > 0,
    ensures
        batches[0].len() == if items.len() < size { items.len() } else { size },
        items == batches[0] + batches.drop_first().flatten(),
        is_chunking(batches.drop_first(), items.skip(batches[0].len() as int), size),
{
    assert(batches.flatten() == batches.first() + batches.drop_first().flatten());
    let rest = batches.drop_first();
    assert(items.skip(batches[0].len() as int) =~= rest.flatten());
    assert(0 < batches[0].len() <= size);
    if batches.len() > 1 {
        assert(batches[0].len() == size);
        assert(rest.flatten() == rest.first() + rest.drop_first().flatten());
        assert(rest[0] == batches[1]);
        assert(rest.flatten().len() >= rest[0].len());
    } else {
        assert(rest =~= Seq::<Seq<PlannedTransfer>>::empty());
        assert(rest.flatten() =~= Seq::<PlannedTransfer>::empty());
    }
    assert forall|k: int| 0 <= k < rest.len() implies 0 < #[trigger] rest[k].len() <= size by {
        assert(rest[k] == batches[k + 1]);
    }
    assert forall|k: int| 0 <= k < rest.len() - 1 implies #[trigger] rest[k].len() == size by {
        assert(rest[k] == batches[k + 1]);
    }
}

/// Cutting the same transfers into runs of the same size gives one batching
/// only: two runs over payments with the same transfers have the same batches.
pub proof fn lemma_chunking_unique(
    b1: Seq<Seq<PlannedTransfer>>,
    b2: Seq<Seq<PlannedTransfer>>,
    items: Seq<PlannedTransfer>,
    size: nat,
)
    requires
        is_chunking(b1, items, size),
        is_chunking(b2, items, size),
    ensures
        b1 == b2,
    decreases b1.len(),
{
    if b1.len() == 0 {
        assert(items =~= Seq::<PlannedTransfer>::empty());
        if b2.len() > 0 {
            lemma_chunking_front(b2, items, size);
        }
        assert(b2.len() == 0);
        assert(b1 =~= b2);
    } else {
        lemma_chunking_front(b1, items, size);
        if b2.len() == 0 {
            assert(items.len() == 0);
        }
        lemma_chunking_front(b2, items, size);
        assert(b1[0] =~= items.take(b1[0].len() as int));
        assert(b2[0] =~= items.take(b2[0].len() as int));
        lemma_chunking_unique(b1.drop_first(), b2.drop_first(), items.skip(b1[0].len() as int), size);
        assert(b1 =~= seq![b1[0]] + b1.drop_first());
        assert(b2 =~= seq![b2[0]] + b2.drop_first());
    }
}

/// The records registered with a batch name its transfers' payments one for
/// one, in the batch's order, each with its position as instruction index.
pub proof fn law_registered_records(infos: Seq<PaymentInfo>, batch: Seq<PlannedTransfer>)
    requires
        infos_match(infos, batch),
    ensures
        infos.len() == batch.len(),
        forall|i: int|
            0 <= i < infos.len() ==> infos[i].payment_id@ == batch[i].payment_id
                && infos[i].instruction_index == i,
{
}

/// How batches lay out: with batches of `size`, there are as many batches as
/// it takes to hold every transfer, and batch `k` holds the transfers from
/// `k * size` on, `size` of them or the rest.
pub proof fn law_chunking_layout(batches: Seq<Seq<PlannedTransfer>>, items: Seq<PlannedTransfer>, size: nat)
    requires
        size > 0,
        is_chunking(batches, items, size),
    ensures
        batches.len() == (items.len() + size - 1) / (size as int),
        forall|k: int|
            0 <= k < batches.len() ==> #[trigger] batches[k] == items.subrange(
                k * size,
                if (k + 1) * size <= items.len() { (k + 1) * size } else { items.len() as int },
            ),
    decreases batches.len(),
{
    if batches.len() == 0 {
        assert(items =~= Seq::<PlannedTransfer>::empty());
        assert((0 + size - 1) / (size as int) == 0) by (nonlinear_arith)
            requires size > 0;
    } else {
        lemma_chunking_front(batches, items, size);
        let n0 = batches[0].len();
        let rest = batches.drop_first();
        let tail = items.skip(n0 as int);
        law_chunking_layout(rest, tail, size);
        assert(batches[0] =~= items.take(n0 as int));
        if items.len() < size {
            assert(tail.len() == 0);
            assert(rest.len() == 0);
            assert((items.len() + size - 1) / (size as int) == 1) by (nonlinear_arith)
                requires 0 < items.len() < size || items.len() == 0, size > 0, items.len() > 0;
        } else {
            assert(n0 == size);
            assert(tail.len() == items.len() - size);
            assert((items.len() + size - 1) / (size as int) == (tail.len() + size - 1) / (size as int) + 1)
                by (nonlinear_arith)
                requires tail.len() == items.len() - size, size > 0;
        }
        assert forall|k: int| 0 <= k < batches.len() implies #[trigger] batches[k] == items.subrange(
            k * size,
            if (k + 1) * size <= items.len() { (k + 1) * size } else { items.len() as int },
        ) by {
            if k == 0 {
                assert(items.take(n0 as int) =~= items.subrange(0, n0 as int));
                if size <= items.len() {
                    assert(n0 == size);
                }
            } else {
                assert(batches[k] == rest[k - 1]);
                assert(n0 == size);
                assert((k - 1) * size + size == k * size) by (nonlinear_arith);
                assert(k * size + size == (k + 1) * size) by (nonlinear_arith);
                let hi = if (k + 1) * size <= items.len() { (k + 1) * size } else { items.len() as int };
                let a = (k - 1) * size;
                let b = if k * size <= tail.len() { k * size } else { tail.len() as int };
                assert(items.len() >= size);
                assert(tail.len() == items.len() - size);
                assert(a + size == k * size);
                assert(b + size == hi);
                assert(0 <= (k - 1) * size) by (nonlinear_arith) requires k >= 1, size > 0;
                let t = tail.len() as int;
                assert((k - 1) * size < t) by (nonlinear_arith)
                    requires
                        0 <= k - 1 < (t + size - 1) / (size as int),
                        size > 0,
                        t >= 0,
                ;
                assert(a <= b);
                assert(rest[k - 1] == tail.subrange(
                    (k - 1) * size,
                    if k * size <= tail.len() { k * size } else { tail.len() as int },
                ));
                assert(tail.subrange(
                    (k - 1) * size,
                    if k * size <= tail.len() { k * size } else { tail.len() as int },
                ) =~= items.subrange(k * size, hi));
            }
        }
    }
}

/// What is owed on a payment, when anything is.
pub fn owed_amount(p: &BondPaymentsV2) -> (r: Option<u64>)
    ensures
        r == transfer_amount(*p),
        r matches Some(a) ==> a > 0 && p.amount + a == p.expected_amount,
        r is None <==> p.amount >= p.expected_amount,
{
    if p.amount < p.expected_amount {
        Some(p.expected_amount - p.amount)
    } else {
        None
    }
}

/// The payment records for a batch, one per transfer, indexed by position.
pub fn payment_infos(batch: &Vec<TransferInstructionWithPaymentId>) -> (r: Vec<PaymentInfo>)
    ensures
        infos_match(r@, batch_view(batch@)),
        r@.len() == batch@.len(),
        forall|i: int|
            0 <= i < r@.len() ==> (#[trigger] r@[i]).payment_id@ == batch@[i].payment_id@
                && r@[i].instruction_index == i,
{
    let mut r: Vec<PaymentInfo> = Vec::new();
    let mut i: usize = 0;
    while i < batch.len()
        invariant
            i <= batch@.len(),
            r@.len() == i,
            forall|j: int|
                0 <= j < i ==> (#[trigger] r@[j]).payment_id@ == batch@[j].payment_id@
                    && r@[j].instruction_index == j,
        decreases batch@.len() - i,
    {
        let id = batch[i].payment_id.clone();
        r.push(PaymentInfo { payment_id: id, instruction_index: i as u64 });
        i = i + 1;
    }
    r
}


/// The transfers that settle `payments`, paid by `payer`, cut into batches of
/// at most `MAX_TRANSFERS_PER_TRANSACTION` in the payments' order; `None` when a
/// payment on which something is owed names its bond account by a text that is
/// not an address.
pub fn plan_batches(payer: [u8; 32], payments: &Vec<BondPaymentsV2>) -> (r: Option<
    Vec<Vec<TransferInstructionWithPaymentId>>,
>)
    ensures
        r is None <==> !bond_pubkeys_valid(payments@),
        r matches Some(bs) ==> {
            &&& is_chunking(
                batches_view(bs@),
                planned_transfers(payments@),
                MAX_TRANSFERS_PER_TRANSACTION as nat,
            )
            &&& forall|k: int| 0 <= k < bs@.len() ==> instructions_match(#[trigger] bs@[k]@, payer@)
        },
{
    let ghost ps = payments@;
    let mut done: Vec<Vec<TransferInstructionWithPaymentId>> = Vec::new();
    let mut cur: Vec<TransferInstructionWithPaymentId> = Vec::new();
    let mut i: usize = 0;
    assert(ps.take(0) =~= Seq::<BondPaymentsV2>::empty());
    assert(batches_view(done@) =~= Seq::<Seq<PlannedTransfer>>::empty());
    assert(batch_view(cur@) =~= Seq::<PlannedTransfer>::empty());
    while i < payments.len()
        invariant
            ps == payments@,
            i <= ps.len(),
            forall|j: int|
                0 <= j < i && (#[trigger] transfer_amount(ps[j])) is Some ==> base58_address(
                    ps[j].bond_pubkey@,
                ) is Some,
            batches_view(done@).flatten() + batch_view(cur@) == planned_transfers(ps.take(i as int)),
            forall|k: int| 0 <= k < done@.len() ==> (#[trigger] done@[k])@.len() == MAX_TRANSFERS_PER_TRANSACTION,
            cur@.len() < MAX_TRANSFERS_PER_TRANSACTION,
            forall|k: int| 0 <= k < done@.len() ==> instructions_match(#[trigger] done@[k]@, payer@),
            instructions_match(cur@, payer@),
        decreases ps.len() - i,
    {
        let p = &payments[i];
        let ghost prev = planned_transfers(ps.take(i as int));
        assert(ps.take(i + 1).drop_last() =~= ps.take(i as int));
        assert(ps.take(i + 1).last() == ps[i as int]);
        match owed_amount(p) {
            None => {},
            Some(amount) => {
                match decode_address(p.bond_pubkey.as_str()) {
                    None => {
                        assert(!bond_pubkeys_valid(ps) && transfer_amount(ps[i as int]) is Some);
                        return None;
                    },
                    Some(to) => {
                        let instruction = system_transfer(payer, to, amount);
                        let t = TransferInstructionWithPaymentId {
                            instruction,
                            payment_id: p.id.clone(),
                            transfer: TransferInfo { to, amount },
                        };
                        let ghost old_cur = cur@;
                        cur.push(t);
                        assert(batch_view(cur@) =~= batch_view(old_cur).push(planned_view(t)));
                        assert(instructions_match(cur@, payer@)) by {
                            assert forall|j: int| 0 <= j < cur@.len() implies is_transfer_instruction(
                                #[trigger] cur@[j].instruction.spec_data(),
                                payer@,
                                cur@[j].transfer.to@,
                                cur@[j].transfer.amount,
                            ) by {
                                if j < old_cur.len() {
                                    assert(cur@[j] == old_cur[j]);
                                }
                            }
                        }
                        if cur.len() == MAX_TRANSFERS_PER_TRANSACTION {
                            let ghost old_done = done@;
                            let full = cur;
                            cur = Vec::new();
                            done.push(full);
                            assert(batches_view(done@) =~= batches_view(old_done).push(
                                batch_view(full@),
                            ));
                            proof {
                                batches_view(old_done).lemma_flatten_push(batch_view(full@));
                            }
                            assert(batch_view(cur@) =~= Seq::<PlannedTransfer>::empty());
                            assert(batches_view(done@).flatten() + batch_view(cur@)
                                =~= batches_view(done@).flatten());
                            assert forall|k: int| 0 <= k < done@.len() implies instructions_match(
                                #[trigger] done@[k]@,
                                payer@,
                            ) by {
                                if k < old_done.len() {
                                    assert(done@[k] == old_done[k]);
                                }
                            }
                            assert forall|k: int| 0 <= k < done@.len() implies (
                            #[trigger] done@[k])@.len() == MAX_TRANSFERS_PER_TRANSACTION by {
                                if k < old_done.len() {
                                    assert(done@[k] == old_done[k]);
                                }
                            }
                        }
                    },
                }
            },
        }
        i = i + 1;
    }
    assert(ps.take(i as int) =~= ps);
    let ghost full_done = done@;
    if cur.len() > 0 {
        let ghost old_done = done@;
        let last = cur;
        done.push(last);
        assert(batches_view(done@) =~= batches_view(old_done).push(batch_view(last@)));
        proof {
            batches_view(old_done).lemma_flatten_push(batch_view(last@));
        }
        assert forall|k: int| 0 <= k < done@.len() implies instructions_match(
            #[trigger] done@[k]@,
            payer@,
        ) by {
            if k < old_done.len() {
                assert(done@[k] == old_done[k]);
            }
        }
        assert forall|k: int| 0 <= k < done@.len() implies 0 < (
        #[trigger] batches_view(done@)[k]).len() <= MAX_TRANSFERS_PER_TRANSACTION by {
            if k < old_done.len() {
                assert(done@[k] == old_done[k]);
            }
        }
        assert forall|k: int| 0 <= k < done@.len() - 1 implies (
        #[trigger] batches_view(done@)[k]).len() == MAX_TRANSFERS_PER_TRANSACTION by {
            assert(done@[k] == old_done[k]);
        }
    } else {
        assert(batch_view(cur@) =~= Seq::<PlannedTransfer>::empty());
        assert(batches_view(done@).flatten() + batch_view(cur@) =~= batches_view(done@).flatten());
    }
    Some(done)
}


/// Where a payment run stands.
#[derive(Debug, Clone, Copy, PartialEq, Eq)]
pub enum RunPhase {
    /// The current batch waits for a recent blockhash to be signed against.
    AwaitingBlockhash,
    /// The current batch is signed; its signature waits to be recorded.
    AwaitingRegistration,
    /// The signature is recorded; the transaction waits to be sent.
    AwaitingSend,
    /// Every batch was sent.
    Finished,
    /// A step failed; nothing more is done.
    Failed,
}

/// What the outside world reports back to a payment run.
pub enum RunEvent {
    /// A recent blockhash, fetched from the cluster.
    Blockhash([u8; 32]),
    /// The backend recorded the signature and payment records.
    SignaturesRegistered,
    /// The cluster accepted the transaction.
    TransactionSent,
    /// The last action failed.
    Error(PyeCliError),
}

/// What a payment run asks the outside world to do next.
pub enum RunAction {
    /// Fetch a recent blockhash.
    FetchBlockhash,
    /// Record the transaction's signature and payment records with the backend.
    RegisterSignatures(SignatureUpdateRequest),
    /// Send the signed transaction, given as its wire bytes, to the cluster.
    SendTransaction(Vec<u8>),
    /// The run is over: every batch was sent.
    Finished,
    /// The run is over: this error stopped it.
    Failed(PyeCliError),
}

/// One pass over the pending payments: batch by batch, a transaction is signed,
/// its signature registered with the backend, and only then is it sent.
pub struct PaymentRun<'a> {
    payer: &'a Payer,
    batches: Vec<Vec<TransferInstructionWithPaymentId>>,
    current: usize,
    phase: RunPhase,
    pending: Option<SignedTransaction>,
}

/// `run` pays, for `payer`, the transfers that settle `payments`: cut into
/// batches of at most `MAX_TRANSFERS_PER_TRANSACTION` in the payments' order,
/// each carried by a system-program transfer from the payer's address.
pub open spec fn is_run_over(run: PaymentRun, payments: Seq<BondPaymentsV2>, payer: Payer) -> bool {
    &&& is_chunking(
        run.spec_batches(),
        planned_transfers(payments),
        MAX_TRANSFERS_PER_TRANSACTION as nat,
    )
    &&& run.spec_payer() == payer
    &&& forall|k: int, i: int|
        0 <= k < run.spec_batches().len() && 0 <= i < run.spec_batches()[k].len()
            ==> is_transfer_instruction(
            #[trigger] run.spec_instruction(k, i),
            payer.spec_address()@,
            run.spec_batches()[k][i].to,
            run.spec_batches()[k][i].amount,
        )
}

/// Two transfer instructions that move the same amount between the same
/// accounts are the same instruction.
pub proof fn lemma_transfer_instruction_unique(
    a: InstructionData,
    b: InstructionData,
    from: Seq<u8>,
    to: Seq<u8>,
    lamports: u64,
)
    requires
        is_transfer_instruction(a, from, to, lamports),
        is_transfer_instruction(b, from, to, lamports),
    ensures
        instruction_view(a) == instruction_view(b),
{
    let va = a.accounts@.map_values(|x: AccountRef| (x.pubkey@, x.is_signer, x.is_writable));
    let vb = b.accounts@.map_values(|x: AccountRef| (x.pubkey@, x.is_signer, x.is_writable));
    assert(va =~= vb);
}

/// A payment that owes nothing, inserted anywhere among the others, changes no
/// transaction of a run: the batches are the same and so are their
/// instructions, hence the compiled messages, and the signed transaction bytes
/// sent for any blockhash.
pub proof fn lemma_settled_payment_changes_no_transaction(
    r1: PaymentRun,
    r2: PaymentRun,
    payments: Seq<BondPaymentsV2>,
    i: int,
    settled: BondPaymentsV2,
    payer: Payer,
)
    requires
        0 <= i <= payments.len(),
        transfer_amount(settled) is None,
        is_run_over(r1, payments, payer),
        is_run_over(r2, payments.insert(i, settled), payer),
    ensures
        r1.spec_batches() == r2.spec_batches(),
        forall|k: int|
            0 <= k < r1.spec_batches().len() ==> {
                let v1 = r1.spec_batch_instructions(k).map_values(|ix: InstructionData| instruction_view(ix));
                let v2 = r2.spec_batch_instructions(k).map_values(|ix: InstructionData| instruction_view(ix));
                &&& #[trigger] r1.spec_batch_instructions(k).len() == r2.spec_batch_instructions(k).len()
                &&& v1 == v2
                &&& legacy_message(v1, payer.spec_address()@) == legacy_message(v2, payer.spec_address()@)
                &&& forall|h: Seq<u8>|
                    #[trigger] signed_transaction_bytes(
                        legacy_message(v1, payer.spec_address()@),
                        payer.spec_secret()@,
                        h,
                    ) == signed_transaction_bytes(
                        legacy_message(v2, payer.spec_address()@),
                        payer.spec_secret()@,
                        h,
                    )
            },
{
    lemma_settled_payment_changes_nothing(payments, i, settled);
    lemma_chunking_unique(
        r1.spec_batches(),
        r2.spec_batches(),
        planned_transfers(payments),
        MAX_TRANSFERS_PER_TRANSACTION as nat,
    );
    assert forall|k: int| 0 <= k < r1.spec_batches().len() implies {
        let v1 = r1.spec_batch_instructions(k).map_values(|ix: InstructionData| instruction_view(ix));
        let v2 = r2.spec_batch_instructions(k).map_values(|ix: InstructionData| instruction_view(ix));
        &&& #[trigger] r1.spec_batch_instructions(k).len() == r2.spec_batch_instructions(k).len()
        &&& v1 == v2
        &&& legacy_message(v1, payer.spec_address()@) == legacy_message(v2, payer.spec_address()@)
        &&& forall|h: Seq<u8>|
            #[trigger] signed_transaction_bytes(
                legacy_message(v1, payer.spec_address()@),
                payer.spec_secret()@,
                h,
            ) == signed_transaction_bytes(
                legacy_message(v2, payer.spec_address()@),
                payer.spec_secret()@,
                h,
            )
    } by {
        let v1 = r1.spec_batch_instructions(k).map_values(|ix: InstructionData| instruction_view(ix));
        let v2 = r2.spec_batch_instructions(k).map_values(|ix: InstructionData| instruction_view(ix));
        assert forall|j: int| 0 <= j < v1.len() implies v1[j] == v2[j] by {
            let t = r1.spec_batches()[k][j];
            assert(is_transfer_instruction(r1.spec_instruction(k, j), payer.spec_address()@, t.to, t.amount));
            assert(is_transfer_instruction(r2.spec_instruction(k, j), payer.spec_address()@, t.to, t.amount));
            lemma_transfer_instruction_unique(
                r1.spec_instruction(k, j),
                r2.spec_instruction(k, j),
                payer.spec_address()@,
                t.to,
                t.amount,
            );
        }
        assert(v1 =~= v2);
    }
}

/// A run that stands here is still under way.
pub open spec fn in_progress(phase: RunPhase) -> bool {
    ||| phase == RunPhase::AwaitingBlockhash
    ||| phase == RunPhase::AwaitingRegistration
    ||| phase == RunPhase::AwaitingSend
}

impl<'a> PaymentRun<'a> {
    /// The transfers of each batch, in sending order.
    pub closed spec fn spec_batches(&self) -> Seq<Seq<PlannedTransfer>> {
        batches_view(self.batches@)
    }

    /// The index of the batch being handled (the number of batches sent).
    pub closed spec fn spec_current(&self) -> nat {
        self.current as nat
    }

    /// Where the run stands.
    pub closed spec fn spec_phase(&self) -> RunPhase {
        self.phase
    }

    /// The signed transaction of the current batch, between its signing and the
    /// registration of its signature.
    pub closed spec fn spec_pending(&self) -> Option<SignedTransaction> {
        self.pending
    }

    /// The instruction of the `i`-th transfer of batch `k`.
    pub closed spec fn spec_instruction(&self, k: int, i: int) -> InstructionData {
        self.batches@[k]@[i].instruction.spec_data()
    }

    /// The instructions of batch `k`, in order.
    pub open spec fn spec_batch_instructions(&self, k: int) -> Seq<InstructionData> {
        Seq::new(self.spec_batches()[k].len(), |i: int| self.spec_instruction(k, i))
    }

    /// Who pays.
    pub closed spec fn spec_payer(&self) -> Payer {
        *self.payer
    }

    /// The run's internal consistency.
    pub closed spec fn wf(&self) -> bool {
        &&& self.current <= self.batches@.len()
        &&& in_progress(self.phase) ==> self.current < self.batches@.len()
        &&& self.pending is Some <==> self.phase == RunPhase::AwaitingRegistration
        &&& self.pending is Some ==> is_signing_of(
            self.pending->0,
            self.spec_batch_instructions(self.current as int),
            *self.payer,
            self.pending->0.recent_blockhash,
        )
        &&& forall|k: int|
            0 <= k < self.batches@.len() ==> instructions_match(
                #[trigger] self.batches@[k]@,
                self.payer.spec_address()@,
            )
        &&& forall|k: int|
            0 <= k < self.batches@.len() ==> (#[trigger] self.batches@[k])@.len()
                <= MAX_TRANSFERS_PER_TRANSACTION
    }

    /// The events that the run takes where it stands: a failure while under
    /// way, or the answer to the action it asked for.
    pub open spec fn accepts(&self, event: RunEvent) -> bool {
        match event {
            RunEvent::Error(_) => in_progress(self.spec_phase()),
            RunEvent::Blockhash(_) => self.spec_phase() == RunPhase::AwaitingBlockhash,
            RunEvent::SignaturesRegistered => self.spec_phase() == RunPhase::AwaitingRegistration,
            RunEvent::TransactionSent => self.spec_phase() == RunPhase::AwaitingSend,
        }
    }

    /// A run over `payments` paid by `payer`; `None` when a payment on which
    /// something is owed names its bond account by a text that is not an
    /// address.
    pub fn new(payer: &'a Payer, payments: &Vec<BondPaymentsV2>) -> (r: Option<PaymentRun<'a>>)
        ensures
            r is None <==> !bond_pubkeys_valid(payments@),
            r matches Some(run) ==> {
                &&& run.wf()
                &&& is_run_over(run, payments@, *payer)
                &&& run.spec_current() == 0
                &&& run.spec_phase() == if run.spec_batches().len() == 0 {
                    RunPhase::Finished
                } else {
                    RunPhase::AwaitingBlockhash
                }
            },
    {
        match plan_batches(payer.address(), payments) {
            None => None,
            Some(batches) => {
                let phase = if batches.len() == 0 {
                    RunPhase::Finished
                } else {
                    RunPhase::AwaitingBlockhash
                };
                let run = PaymentRun { payer, batches, current: 0, phase, pending: None };
                assert forall|k: int, i: int|
                    0 <= k < run.spec_batches().len() && 0 <= i < run.spec_batches()[k].len()
                        implies is_transfer_instruction(
                        #[trigger] run.spec_instruction(k, i),
                        payer.spec_address()@,
                        run.spec_batches()[k][i].to,
                        run.spec_batches()[k][i].amount,
                    ) by {
                    assert(instructions_match(run.batches@[k]@, payer.spec_address()@));
                    assert(run.spec_batches()[k] == batch_view(run.batches@[k]@));
                }
                assert forall|k: int| 0 <= k < run.batches@.len() implies (
                #[trigger] run.batches@[k])@.len() <= MAX_TRANSFERS_PER_TRANSACTION by {
                    assert(run.spec_batches()[k] == batch_view(run.batches@[k]@));
                }
                Some(run)
            },
        }
    }

    /// The first thing to do: fetch a blockhash, or nothing when there is
    /// nothing to pay.
    pub fn first_action(&self) -> (a: RunAction)
        requires
            self.wf(),
        ensures
            if self.spec_phase() == RunPhase::AwaitingBlockhash {
                a is FetchBlockhash
            } else {
                a is Finished
            },
    {
        match self.phase {
            RunPhase::AwaitingBlockhash => RunAction::FetchBlockhash,
            _ => RunAction::Finished,
        }
    }

    /// Takes what the outside world reports and says what to do next.
    ///
    /// A failure ends the run with that error. A blockhash gets the current
    /// batch signed and asks for its payment records, indexed by position, to
    /// be registered with the signature. Only a registered transaction is
    /// sent, and only a sent one moves the run to the next batch; after the
    /// last batch the run is finished.
    pub fn step(&mut self, event: RunEvent) -> (a: RunAction)
        requires
            old(self).wf(),
            old(self).accepts(event),
        ensures
            final(self).wf(),
            final(self).spec_batches() == old(self).spec_batches(),
            final(self).spec_payer() == old(self).spec_payer(),
            match event {
                RunEvent::Error(e) => {
                    &&& final(self).spec_phase() == RunPhase::Failed
                    &&& final(self).spec_current() == old(self).spec_current()
                    &&& a == RunAction::Failed(e)
                },
                RunEvent::Blockhash(h) => {
                    &&& final(self).spec_phase() == RunPhase::AwaitingRegistration
                    &&& final(self).spec_current() == old(self).spec_current()
                    &&& final(self).spec_pending() matches Some(st) && {
                        let k = old(self).spec_current() as int;
                        &&& is_signing_of(
                            st,
                            old(self).spec_batch_instructions(k),
                            old(self).spec_payer(),
                            h,
                        )
                        &&& a matches RunAction::RegisterSignatures(req) && req.signature@
                            == st.signature@ && infos_match(
                            req.payment_infos@,
                            old(self).spec_batches()[k],
                        )
                    }
                },
                RunEvent::SignaturesRegistered => {
                    &&& final(self).spec_phase() == RunPhase::AwaitingSend
                    &&& final(self).spec_current() == old(self).spec_current()
                    &&& old(self).spec_pending() matches Some(st) && {
                        &&& is_signing_of(
                            st,
                            old(self).spec_batch_instructions(old(self).spec_current() as int),
                            old(self).spec_payer(),
                            st.recent_blockhash,
                        )
                        &&& a == RunAction::SendTransaction(st.wire)
                    }
                },
                RunEvent::TransactionSent => {
                    &&& final(self).spec_current() == old(self).spec_current() + 1
                    &&& if final(self).spec_current() == old(self).spec_batches().len() {
                        final(self).spec_phase() == RunPhase::Finished && a is Finished
                    } else {
                        final(self).spec_phase() == RunPhase::AwaitingBlockhash
                            && a is FetchBlockhash
                    }
                },
            },
    {
        match event {
            RunEvent::Error(e) => {
                self.phase = RunPhase::Failed;
                self.pending = None;
                RunAction::Failed(e)
            },
            RunEvent::Blockhash(blockhash) => {
                let batch = &self.batches[self.current];
                let mut instructions: Vec<&TransferInstruction> = Vec::new();
                let mut i: usize = 0;
                while i < batch.len()
                    invariant
                        i <= batch@.len(),
                        instructions@.len() == i,
                        forall|j: int| 0 <= j < i ==> #[trigger] instructions@[j] == batch@[j].instruction,
                        instructions_match(batch@, self.payer.spec_address()@),
                    decreases batch@.len() - i,
                {
                    instructions.push(&batch[i].instruction);
                    i = i + 1;
                }
                proof {
                    assert(instructions@.len() <= MAX_TRANSFERS_PER_TRANSACTION);
                    assert forall|i: int| 0 <= i < instructions@.len() implies is_transfer_instruction(
                        #[trigger] instructions_data(instructions@)[i],
                        self.payer.spec_address()@,
                        batch@[i].transfer.to@,
                        batch@[i].transfer.amount,
                    ) by {
                        assert(instructions@[i] == batch@[i].instruction);
                    }
                    assert(transfers_from(instructions_data(instructions@), self.payer.spec_address()@));
                    assert(instructions_data(instructions@)
                        =~= self.spec_batch_instructions(self.current as int));
                }
                let signed = self.payer.sign(&instructions, blockhash);
                let signature = signed.signature.clone();
                let payment_infos = payment_infos(batch);
                let ghost bi = self.spec_batch_instructions(self.current as int);
                self.pending = Some(signed);
                self.phase = RunPhase::AwaitingRegistration;
                assert(self.spec_batch_instructions(self.current as int) =~= bi);
                RunAction::RegisterSignatures(SignatureUpdateRequest { payment_infos, signature })
            },
            RunEvent::SignaturesRegistered => {
                let signed = self.pending.take().unwrap();
                self.phase = RunPhase::AwaitingSend;
                RunAction::SendTransaction(signed.wire)
            },
            RunEvent::TransactionSent => {
                let count = self.batches.len();
                self.current = self.current + 1;
                if self.current == count {
                    self.phase = RunPhase::Finished;
                    RunAction::Finished
                } else {
                    self.phase = RunPhase::AwaitingBlockhash;
                    RunAction::FetchBlockhash
                }
            },
        }
    }
}

} // verus!
