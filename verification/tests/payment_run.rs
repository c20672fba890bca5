use pye_cli::api::BondPaymentsV2;
use pye_cli::error::PyeCliError;
use pye_cli::solana::{AccountRef, Payer};
use pye_cli::transfers::{
    owed_amount, payment_infos, plan_batches, PaymentRun, RunAction, RunEvent,
    MAX_TRANSFERS_PER_TRANSACTION,
};
use solana_pubkey::Pubkey;
use solana_sdk::signature::Keypair;
use solana_sdk::signer::Signer;
use solana_sdk::transaction::Transaction;

fn decode(bytes: &[u8]) -> Transaction {
    bincode::deserialize(bytes).unwrap()
}

fn address(n: u8) -> [u8; 32] {
    let mut a = [0u8; 32];
    a[0] = n;
    a[31] = 7;
    a
}

fn payment(id: &str, to: &str, amount: u64, expected: u64) -> BondPaymentsV2 {
    BondPaymentsV2 {
        id: id.to_string(),
        bond_pubkey: to.to_string(),
        amount,
        fee_payer: None,
        is_jito_claim: None,
        epoch: 800,
        finalized: false,
        signature: None,
        finalization_attempts: 0,
        expected_amount: expected,
        organization_id: 1,
        validator_vote_account: "vote".to_string(),
    }
}

fn owed(i: usize) -> BondPaymentsV2 {
    payment(&format!("p{}", i), &Pubkey::from(address(i as u8)).to_string(), 10, 10 + i as u64 + 1)
}

#[test]
fn owed_amount_is_expected_less_paid() {
    assert_eq!(owed_amount(&payment("a", "x", 100, 250)), Some(150));
    assert_eq!(owed_amount(&payment("a", "x", 250, 250)), None);
    assert_eq!(owed_amount(&payment("a", "x", 300, 250)), None);
    assert_eq!(owed_amount(&payment("a", "x", 0, u64::MAX)), Some(u64::MAX));
}

#[test]
fn plan_skips_settled_payments_and_keeps_order() {
    let payer = address(200);
    let to1 = Pubkey::from(address(1)).to_string();
    let to2 = Pubkey::from(address(2)).to_string();
    let payments = vec![
        payment("first", &to1, 5, 20),
        payment("settled", "not an address", 20, 20),
        payment("overpaid", "not an address", 30, 20),
        payment("second", &to2, 0, 7),
    ];
    let batches = plan_batches(payer, &payments).expect("valid addresses");
    assert_eq!(batches.len(), 1);
    let batch = &batches[0];
    assert_eq!(batch.len(), 2);
    assert_eq!(batch[0].payment_id, "first");
    assert_eq!(batch[0].transfer.to, address(1));
    assert_eq!(batch[0].transfer.amount, 15);
    assert_eq!(batch[1].payment_id, "second");
    assert_eq!(batch[1].transfer.to, address(2));
    assert_eq!(batch[1].transfer.amount, 7);
}

#[test]
fn transfer_instructions_are_system_transfers_from_the_payer() {
    let payer = address(200);
    let to = Pubkey::from(address(3)).to_string();
    let batches = plan_batches(payer, &vec![payment("p", &to, 1, 0x0102_0304_0506_0709)]).unwrap();
    let ix = batches[0][0].instruction.data();
    assert_eq!(ix.program_id, [0u8; 32]);
    assert_eq!(
        ix.accounts,
        vec![
            AccountRef { pubkey: payer, is_signer: true, is_writable: true },
            AccountRef { pubkey: address(3), is_signer: false, is_writable: true },
        ]
    );
    assert_eq!(ix.data, vec![2, 0, 0, 0, 0x08, 0x07, 0x06, 0x05, 0x04, 0x03, 0x02, 0x01]);
    let reference = solana_system_interface::instruction::transfer(
        &Pubkey::from(payer),
        &Pubkey::from(address(3)),
        0x0102_0304_0506_0708,
    );
    assert_eq!(ix.data, reference.data);
}

#[test]
fn invalid_address_on_an_owed_payment_stops_planning() {
    let payments = vec![owed(1), payment("bad", "0OIl", 1, 2)];
    assert!(plan_batches(address(200), &payments).is_none());
    let too_long = "1".repeat(45);
    assert!(plan_batches(address(200), &vec![payment("long", &too_long, 0, 1)]).is_none());
}

#[test]
fn only_the_canonical_text_of_an_address_decodes() {
    let extra_one = "1".repeat(33);
    assert!(plan_batches(address(200), &vec![payment("extra", &extra_one, 0, 1)]).is_none());
    let short = "1".repeat(31);
    assert!(plan_batches(address(200), &vec![payment("short", &short, 0, 1)]).is_none());
    let zero = "1".repeat(32);
    let batches = plan_batches(address(200), &vec![payment("zero", &zero, 0, 1)]).unwrap();
    assert_eq!(batches[0][0].transfer.to, [0u8; 32]);
}

#[test]
fn batches_hold_fifty_transfers_in_order() {
    let payments: Vec<BondPaymentsV2> = (0..120).map(owed).collect();
    let batches = plan_batches(address(200), &payments).unwrap();
    assert_eq!(MAX_TRANSFERS_PER_TRANSACTION, 50);
    assert_eq!(batches.iter().map(|b| b.len()).collect::<Vec<_>>(), vec![50, 50, 20]);
    let ids: Vec<String> = batches.iter().flatten().map(|t| t.payment_id.clone()).collect();
    let expected: Vec<String> = (0..120).map(|i| format!("p{}", i)).collect();
    assert_eq!(ids, expected);
    let exact: Vec<BondPaymentsV2> = (0..100).map(owed).collect();
    assert_eq!(plan_batches(address(200), &exact).unwrap().len(), 2);
    assert!(plan_batches(address(200), &vec![]).unwrap().is_empty());
}

#[test]
fn payment_infos_index_by_position() {
    let payments: Vec<BondPaymentsV2> = (0..3).map(owed).collect();
    let batches = plan_batches(address(200), &payments).unwrap();
    let infos = payment_infos(&batches[0]);
    assert_eq!(infos.len(), 3);
    for (i, info) in infos.iter().enumerate() {
        assert_eq!(info.payment_id, format!("p{}", i));
        assert_eq!(info.instruction_index, i as u64);
    }
}

#[test]
fn run_registers_each_batch_before_sending_it() {
    let keypair = Keypair::new();
    let payer_key = keypair.pubkey();
    let payer = Payer::from_secret(*keypair.secret_bytes());
    assert_eq!(payer.address(), payer_key.to_bytes());
    let payments: Vec<BondPaymentsV2> = (0..60).map(owed).collect();
    let mut run = PaymentRun::new(&payer, &payments).expect("valid");
    assert!(matches!(run.first_action(), RunAction::FetchBlockhash));
    let mut sent = 0;
    for (batch, size) in [(0usize, 50usize), (1, 10)] {
        let req = match run.step(RunEvent::Blockhash([9u8; 32])) {
            RunAction::RegisterSignatures(req) => req,
            _ => panic!("expected a registration"),
        };
        assert_eq!(req.payment_infos.len(), size);
        assert_eq!(req.payment_infos[0].payment_id, format!("p{}", batch * 50));
        assert_eq!(req.payment_infos[size - 1].instruction_index, (size - 1) as u64);
        let tx = match run.step(RunEvent::SignaturesRegistered) {
            RunAction::SendTransaction(bytes) => decode(&bytes),
            _ => panic!("expected a transaction"),
        };
        assert_eq!(tx.signatures[0].to_string(), req.signature);
        assert!(tx.verify().is_ok());
        assert_eq!(tx.message.account_keys[0], payer_key);
        assert_eq!(tx.message.instructions.len(), size);
        assert_eq!(tx.message.recent_blockhash.to_bytes(), [9u8; 32]);
        sent += 1;
        let next = run.step(RunEvent::TransactionSent);
        if batch == 0 {
            assert!(matches!(next, RunAction::FetchBlockhash));
        } else {
            assert!(matches!(next, RunAction::Finished));
        }
    }
    assert_eq!(sent, 2);
}

#[test]
fn run_with_nothing_owed_is_finished_at_once() {
    let payer = Payer::from_secret(*Keypair::new().secret_bytes());
    let run = PaymentRun::new(&payer, &vec![payment("s", "x", 5, 5)]).unwrap();
    assert!(matches!(run.first_action(), RunAction::Finished));
    assert!(PaymentRun::new(&payer, &vec![payment("bad", "x", 0, 5)]).is_none());
}

#[test]
fn a_failure_ends_the_run() {
    let payer = Payer::from_secret(*Keypair::new().secret_bytes());
    let payments: Vec<BondPaymentsV2> = (0..2).map(owed).collect();
    let mut run = PaymentRun::new(&payer, &payments).unwrap();
    let _ = run.step(RunEvent::Blockhash([1u8; 32]));
    match run.step(RunEvent::Error(PyeCliError::PyeApiError(500, "down".into()))) {
        RunAction::Failed(e) => assert_eq!(e, PyeCliError::PyeApiError(500, "down".into())),
        _ => panic!("expected failure"),
    }
}

const SYSTEM: &str = "11111111111111111111111111111111";

fn transfer_data(lamports: u64) -> Vec<u8> {
    let mut d = vec![2, 0, 0, 0];
    d.extend_from_slice(&lamports.to_le_bytes());
    d
}

#[test]
fn fifty_one_payments_make_two_transactions() {
    let keypair = Keypair::new();
    let payer_key = keypair.pubkey();
    let payer = Payer::from_secret(*keypair.secret_bytes());
    let payments: Vec<BondPaymentsV2> =
        (0..51).map(|k| payment(&format!("p{}", k), SYSTEM, 0, 1)).collect();
    let mut run = PaymentRun::new(&payer, &payments).unwrap();
    assert!(matches!(run.first_action(), RunAction::FetchBlockhash));
    let mut updates = vec![];
    let mut sent = vec![];
    let mut action = run.first_action();
    let mut hash = 0u8;
    loop {
        let event = match action {
            RunAction::FetchBlockhash => {
                hash += 1;
                RunEvent::Blockhash([hash; 32])
            }
            RunAction::RegisterSignatures(req) => {
                updates.push(req);
                RunEvent::SignaturesRegistered
            }
            RunAction::SendTransaction(bytes) => {
                sent.push(decode(&bytes));
                RunEvent::TransactionSent
            }
            RunAction::Finished => break,
            RunAction::Failed(e) => panic!("{:?}", e),
        };
        action = run.step(event);
    }
    assert_eq!(updates.len(), 2);
    assert_eq!(sent.len(), 2);
    for (k, info) in updates[0].payment_infos.iter().enumerate() {
        assert_eq!(info.payment_id, format!("p{}", k));
        assert_eq!(info.instruction_index, k as u64);
    }
    assert_eq!(updates[0].payment_infos.len(), 50);
    assert_eq!(updates[1].payment_infos.len(), 1);
    assert_eq!(updates[1].payment_infos[0].payment_id, "p50");
    assert_eq!(updates[1].payment_infos[0].instruction_index, 0);
    assert_eq!(sent[0].message.instructions.len(), 50);
    assert_eq!(sent[1].message.instructions.len(), 1);
    for (k, tx) in sent.iter().enumerate() {
        assert_eq!(tx.signatures[0].to_string(), updates[k].signature);
        assert_eq!(tx.message.account_keys[0], payer_key);
        assert_eq!(tx.message.recent_blockhash.to_bytes(), [k as u8 + 1; 32]);
        assert!(tx.verify().is_ok());
    }
    let expected = solana_system_interface::instruction::transfer(
        &payer_key,
        &Pubkey::from_str_const(SYSTEM),
        1,
    );
    let rebuilt = solana_sdk::transaction::Transaction::new_signed_with_payer(
        &[expected],
        Some(&payer_key),
        &[&keypair],
        solana_sdk::hash::Hash::new_from_array([2u8; 32]),
    );
    assert_eq!(sent[1], rebuilt);
}

#[test]
fn skipped_payment_then_one_transfer_of_four() {
    let keypair = Keypair::new();
    let payer_key = keypair.pubkey();
    let payer = Payer::from_secret(*keypair.secret_bytes());
    let payments = vec![payment("a", SYSTEM, 5, 5), payment("b", SYSTEM, 3, 7)];
    let mut run = PaymentRun::new(&payer, &payments).unwrap();
    assert!(matches!(run.first_action(), RunAction::FetchBlockhash));
    let req = match run.step(RunEvent::Blockhash([7u8; 32])) {
        RunAction::RegisterSignatures(req) => req,
        _ => panic!("expected a registration"),
    };
    assert_eq!(req.payment_infos.len(), 1);
    assert_eq!(req.payment_infos[0].payment_id, "b");
    assert_eq!(req.payment_infos[0].instruction_index, 0);
    let bytes = match run.step(RunEvent::SignaturesRegistered) {
        RunAction::SendTransaction(bytes) => bytes,
        _ => panic!("expected a transaction"),
    };
    let tx = decode(&bytes);
    let only = solana_system_interface::instruction::transfer(
        &payer_key,
        &Pubkey::from_str_const(SYSTEM),
        4,
    );
    let expected = solana_sdk::transaction::Transaction::new_signed_with_payer(
        &[only],
        Some(&payer_key),
        &[&keypair],
        solana_sdk::hash::Hash::new_from_array([7u8; 32]),
    );
    assert_eq!(tx, expected);
    assert_eq!(bytes, bincode::serialize(&expected).unwrap());
    assert_eq!(bytes[0], 1);
    let first = solana_sdk::signature::Signature::try_from(&bytes[1..65]).unwrap();
    assert_eq!(first.to_string(), req.signature);
    assert_eq!(tx.message.instructions[0].data, transfer_data(4));
    assert_eq!(req.signature, tx.signatures[0].to_string());
    assert!(matches!(run.step(RunEvent::TransactionSent), RunAction::Finished));
}

#[test]
fn a_settled_payment_changes_no_transaction() {
    let keypair = Keypair::new();
    let payer = Payer::from_secret(*keypair.secret_bytes());
    let base: Vec<BondPaymentsV2> = (0..3).map(owed).collect();
    let mut with = base.clone();
    with.insert(1, payment("settled", "not an address", 9, 4));
    let run_once = |ps: &Vec<BondPaymentsV2>| {
        let mut run = PaymentRun::new(&payer, ps).unwrap();
        let req = match run.step(RunEvent::Blockhash([3u8; 32])) {
            RunAction::RegisterSignatures(req) => req,
            _ => panic!("expected a registration"),
        };
        let tx = match run.step(RunEvent::SignaturesRegistered) {
            RunAction::SendTransaction(bytes) => decode(&bytes),
            _ => panic!("expected a transaction"),
        };
        (req, tx)
    };
    let (r1, t1) = run_once(&base);
    let (r2, t2) = run_once(&with);
    assert_eq!(r1, r2);
    assert_eq!(t1, t2);
}

#[test]
fn payer_address_is_the_keypairs_public_key() {
    let keypair = Keypair::new();
    let payer = Payer::from_secret(*keypair.secret_bytes());
    assert_eq!(payer.address(), keypair.pubkey().to_bytes());
    assert_eq!(payer.address_text(), keypair.pubkey().to_string());
}

#[test]
fn a_transfer_to_the_payer_itself_is_signed() {
    let keypair = Keypair::new();
    let payer_key = keypair.pubkey();
    let payer = Payer::from_secret(*keypair.secret_bytes());
    let payments = vec![payment("self", &payer_key.to_string(), 0, 9)];
    let mut run = PaymentRun::new(&payer, &payments).unwrap();
    let _ = run.step(RunEvent::Blockhash([5u8; 32]));
    let tx = match run.step(RunEvent::SignaturesRegistered) {
        RunAction::SendTransaction(bytes) => decode(&bytes),
        _ => panic!("expected a transaction"),
    };
    assert!(tx.verify().is_ok());
    assert_eq!(tx.message.account_keys.len(), 2);
    assert_eq!(tx.message.instructions[0].accounts, vec![0, 0]);
}
