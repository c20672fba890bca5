//! The Solana side of a payment: account addresses, system-program transfer
//! instructions, and the payer that signs transactions.

use vstd::prelude::*;

use std::str::FromStr;

use solana_instruction::Instruction;
use solana_pubkey::Pubkey;
use solana_sdk::message::Message;
use solana_sdk::signature::Keypair;
use solana_sdk::signer::Signer;
use solana_sdk::transaction::Transaction;

verus! {

#[verifier::external_type_specification]
#[verifier::external_body]
pub struct ExMessage(Message);

#[verifier::external_type_specification]
#[verifier::external_body]
pub struct ExInstruction(Instruction);

/// One account that an instruction names, with what it may do.
#[derive(Debug, Clone, Copy, PartialEq, Eq)]
pub struct AccountRef {
    pub pubkey: [u8; 32],
    pub is_signer: bool,
    pub is_writable: bool,
}

/// An instruction as its fields hold it: the program, the accounts, the data.
#[derive(Debug, Clone, PartialEq, Eq)]
pub struct InstructionData {
    pub program_id: [u8; 32],
    pub accounts: Vec<AccountRef>,
    pub data: Vec<u8>,
}

/// The 32 bytes that a base58 address text decodes to, if it is one
/// (`Pubkey::from_str`).
pub uninterp spec fn base58_address(text: Seq<char>) -> Option<Seq<u8>>;

/// The base58 alphabet: digit `d` is written as the `d`-th character.
pub open spec fn base58_alphabet() -> Seq<char> {
    seq![
        '1', '2', '3', '4', '5', '6', '7', '8', '9', 'A', 'B', 'C', 'D', 'E', 'F', 'G',
        'H', 'J', 'K', 'L', 'M', 'N', 'P', 'Q', 'R', 'S', 'T', 'U', 'V', 'W', 'X', 'Y',
        'Z', 'a', 'b', 'c', 'd', 'e', 'f', 'g', 'h', 'i', 'j', 'k', 'm', 'n', 'o', 'p',
        'q', 'r', 's', 't', 'u', 'v', 'w', 'x', 'y', 'z',
    ]
}

/// The number that `bytes` writes, most significant byte first.
pub open spec fn big_endian_value(bytes: Seq<u8>) -> nat
    decreases bytes.len(),
{
    if bytes.len() == 0 {
        0
    } else {
        big_endian_value(bytes.drop_last()) * 256 + bytes.last() as nat
    }
}

/// The base58 digits of `n`, most significant first, without leading zeros
/// (none at all for zero).
pub open spec fn base58_digits(n: nat) -> Seq<char>
    decreases n,
{
    if n == 0 {
        Seq::empty()
    } else {
        base58_digits(n / 58).push(base58_alphabet()[(n % 58) as int])
    }
}

/// How many zero bytes `bytes` starts with.
pub open spec fn leading_zero_bytes(bytes: Seq<u8>) -> nat
    decreases bytes.len(),
{
    if bytes.len() > 0 && bytes[0] == 0 {
        1 + leading_zero_bytes(bytes.drop_first())
    } else {
        0
    }
}

/// The base58 text of some bytes: a '1' for each leading zero byte, then the
/// digits of the number that the bytes write.
pub open spec fn base58_text(bytes: Seq<u8>) -> Seq<char> {
    Seq::new(leading_zero_bytes(bytes), |i: int| '1') + base58_digits(big_endian_value(bytes))
}

/// The base58 text of an address (`Pubkey`'s `Display`).
pub open spec fn address_text(address: Seq<u8>) -> Seq<char> {
    base58_text(address)
}

/// The address of the system program: 32 zero bytes.
pub open spec fn system_program_id() -> Seq<u8> {
    Seq::new(32, |i: int| 0u8)
}

/// The `k` low bytes of `n`, least significant first.
pub open spec fn le_bytes(n: nat, k: nat) -> Seq<u8>
    decreases k,
{
    if k == 0 {
        Seq::empty()
    } else {
        seq![(n % 256) as u8] + le_bytes(n / 256, (k - 1) as nat)
    }
}

/// The data of a system-program transfer of `lamports`: the variant index 2 as
/// a little-endian `u32`, then the amount as a little-endian `u64`.
pub open spec fn transfer_data(lamports: u64) -> Seq<u8> {
    seq![2u8, 0u8, 0u8, 0u8] + le_bytes(lamports as nat, 8)
}

/// `ix` moves `lamports` from `from`, which signs, to `to`, through the system
/// program.
pub open spec fn is_transfer_instruction(
    ix: InstructionData,
    from: Seq<u8>,
    to: Seq<u8>,
    lamports: u64,
) -> bool {
    &&& ix.program_id@ == system_program_id()
    &&& ix.accounts@.len() == 2
    &&& ix.accounts@[0].pubkey@ == from
    &&& ix.accounts@[0].is_signer
    &&& ix.accounts@[0].is_writable
    &&& ix.accounts@[1].pubkey@ == to
    &&& !ix.accounts@[1].is_signer
    &&& ix.accounts@[1].is_writable
    &&& ix.data@ == transfer_data(lamports)
}

/// Each of `instructions` is a system-program transfer from `payer`: the
/// payer writable and signing, then one writable account that does not sign.
pub open spec fn transfers_from(instructions: Seq<InstructionData>, payer: Seq<u8>) -> bool {
    forall|i: int|
        0 <= i < instructions.len() ==> {
            let ix = #[trigger] instructions[i];
            &&& ix.program_id@ == system_program_id()
            &&& ix.accounts@.len() == 2
            &&& ix.accounts@[0].pubkey@ == payer
            &&& ix.accounts@[0].is_signer
            &&& ix.accounts@[0].is_writable
            &&& !ix.accounts@[1].is_signer
            &&& ix.accounts@[1].is_writable
        }
}

/// A system-program transfer: the outside instruction, and its fields.
#[derive(Debug)]
pub struct TransferInstruction {
    data: InstructionData,
    instruction: Instruction,
}

impl TransferInstruction {
    /// The fields of the instruction.
    pub closed spec fn spec_data(&self) -> InstructionData {
        self.data
    }

    /// The fields of the instruction.
    pub fn data(&self) -> (r: &InstructionData)
        ensures
            *r == self.spec_data(),
    {
        &self.data
    }
}

/// The fields of each instruction of a list.
pub open spec fn instructions_data(instructions: Seq<&TransferInstruction>) -> Seq<InstructionData> {
    instructions.map_values(|t: &TransferInstruction| t.spec_data())
}

/// An instruction as a message holds it: indexes into the message's keys.
#[derive(Debug, Clone, PartialEq, Eq)]
pub struct CompiledInstructionData {
    pub program_id_index: u8,
    pub accounts: Vec<u8>,
    pub data: Vec<u8>,
}

/// A legacy transaction message as its fields hold it, without its blockhash.
#[derive(Debug, Clone, PartialEq, Eq)]
pub struct MessageData {
    pub num_required_signatures: u8,
    pub num_readonly_signed_accounts: u8,
    pub num_readonly_unsigned_accounts: u8,
    pub account_keys: Vec<[u8; 32]>,
    pub instructions: Vec<CompiledInstructionData>,
}

/// A compiled message: the outside value that gets signed, and its fields.
pub struct CompiledMessage {
    message: Message,
    data: MessageData,
}

/// A transaction signed by the payer: its bytes as they go on the wire, the
/// fields of its message, the blockhash it was signed against and the text of
/// its first signature, the one that identifies it on chain.
pub struct SignedTransaction {
    pub wire: Vec<u8>,
    pub message: MessageData,
    pub recent_blockhash: [u8; 32],
    pub signature: String,
}

/// The message's key `k` signs: the first `num_required_signatures` keys do.
pub open spec fn key_is_signer(m: MessageData, k: int) -> bool {
    k < m.num_required_signatures
}

/// The message's key `k` may be written: every key but the last
/// `num_readonly_signed_accounts` signers and the last
/// `num_readonly_unsigned_accounts` keys.
pub open spec fn key_is_writable(m: MessageData, k: int) -> bool {
    ||| k < m.num_required_signatures - m.num_readonly_signed_accounts
    ||| m.num_required_signatures <= k < m.account_keys@.len() - m.num_readonly_unsigned_accounts
}

/// The `i`-th instruction of `m` is `ix`: its program and accounts are the
/// keys it indexes, each account may be written as `ix` says, and signs when
/// `ix` says so or it is the fee payer (the first key); the data is the same.
pub open spec fn carries_instruction(m: MessageData, i: int, ix: InstructionData) -> bool {
    let c = m.instructions@[i];
    &&& c.program_id_index < m.account_keys@.len()
    &&& m.account_keys@[c.program_id_index as int]@ == ix.program_id@
    &&& c.accounts@.len() == ix.accounts@.len()
    &&& forall|j: int|
        #![trigger c.accounts@[j]]
        0 <= j < c.accounts@.len() ==> {
            let k = c.accounts@[j] as int;
            &&& k < m.account_keys@.len()
            &&& m.account_keys@[k]@ == ix.accounts@[j].pubkey@
            &&& key_is_writable(m, k) == ix.accounts@[j].is_writable
            &&& key_is_signer(m, k) == (ix.accounts@[j].is_signer || m.account_keys@[k]@
                == m.account_keys@[0]@)
        }
    &&& c.data@ == ix.data@
}

/// `m` is the message of a transaction paid by `payer` that carries
/// `instructions` in order, with the payer as its only signer.
pub open spec fn is_message_of(m: MessageData, instructions: Seq<InstructionData>, payer: Seq<u8>) -> bool {
    &&& m.account_keys@.len() >= 1
    &&& m.account_keys@[0]@ == payer
    &&& m.num_required_signatures == 1
    &&& m.num_readonly_signed_accounts == 0
    &&& m.instructions@.len() == instructions.len()
    &&& forall|i: int| 0 <= i < instructions.len() ==> carries_instruction(m, i, #[trigger] instructions[i])
}

/// An instruction as plain values.
pub open spec fn instruction_view(ix: InstructionData) -> (Seq<u8>, Seq<(Seq<u8>, bool, bool)>, Seq<u8>) {
    (
        ix.program_id@,
        ix.accounts@.map_values(|a: AccountRef| (a.pubkey@, a.is_signer, a.is_writable)),
        ix.data@,
    )
}

/// A message as plain values: its header, its keys, its compiled instructions.
pub open spec fn message_view(m: MessageData) -> (Seq<u8>, Seq<Seq<u8>>, Seq<(u8, Seq<u8>, Seq<u8>)>) {
    (
        seq![m.num_required_signatures, m.num_readonly_signed_accounts, m.num_readonly_unsigned_accounts],
        m.account_keys@.map_values(|k: [u8; 32]| k@),
        m.instructions@.map_values(|c: CompiledInstructionData| (c.program_id_index, c.accounts@, c.data@)),
    )
}

/// The public key of an ed25519 secret key (`Keypair::new_from_array`, then
/// `Signer::pubkey`).
pub uninterp spec fn ed25519_public_key(secret: Seq<u8>) -> Seq<u8>;

/// The message that `Message::new` compiles from instructions and a fee payer.
pub uninterp spec fn legacy_message(
    instructions: Seq<(Seq<u8>, Seq<(Seq<u8>, bool, bool)>, Seq<u8>)>,
    payer: Seq<u8>,
) -> (Seq<u8>, Seq<Seq<u8>>, Seq<(u8, Seq<u8>, Seq<u8>)>);

/// The wire bytes (bincode) of the transaction that carries a message with a
/// given recent blockhash, signed by the secret key (ed25519 signing is
/// deterministic).
pub uninterp spec fn signed_transaction_bytes(
    message: (Seq<u8>, Seq<Seq<u8>>, Seq<(u8, Seq<u8>, Seq<u8>)>),
    secret: Seq<u8>,
    blockhash: Seq<u8>,
) -> Seq<u8>;

/// `st` is the transaction that `payer` signs over `instructions` against
/// `blockhash`: its message carries them in order with the payer as fee payer
/// and only signer, its bytes are those of that message signed by the payer's
/// secret, and they hold one signature, whose text is `st.signature`.
pub open spec fn is_signing_of(
    st: SignedTransaction,
    instructions: Seq<InstructionData>,
    payer: Payer,
    blockhash: [u8; 32],
) -> bool {
    &&& is_message_of(st.message, instructions, payer.spec_address()@)
    &&& message_view(st.message) == legacy_message(
        instructions.map_values(|ix: InstructionData| instruction_view(ix)),
        payer.spec_address()@,
    )
    &&& st.recent_blockhash == blockhash
    &&& st.wire@ == signed_transaction_bytes(message_view(st.message), payer.spec_secret()@, blockhash@)
    &&& st.wire@.len() >= 65
    &&& st.wire@[0] == 1
    &&& st.signature@ == base58_text(st.wire@.subrange(1, 65))
}

/// `Pubkey::from_str`: decodes base58 text to 32 bytes. The result is named
/// `base58_address`. `five8::decode_32` accepts exactly the texts that encode
/// some 32 bytes, leading '1's matching leading zero bytes, so a decoded
/// address encodes back to the text, and a refused text encodes no address; a
/// text of more than 44 characters is refused before any decoding.
#[verifier::external_body]
pub(crate) fn decode_address(text: &str) -> (r: Option<[u8; 32]>)
    ensures
        match r {
            Some(a) => base58_address(text@) == Some(a@) && address_text(a@) == text@,
            None => base58_address(text@) is None && forall|a: Seq<u8>|
                a.len() == 32 ==> #[trigger] address_text(a) != text@,
        },
        text@.len() > 44 ==> r is None,
{
    Pubkey::from_str(text).ok().map(|p| p.to_bytes())
}

/// `Pubkey`'s `Display` (`five8::encode_32`): the base58 text of an address,
/// as `address_text` spells it out.
#[verifier::external_body]
fn encode_address(address: [u8; 32]) -> (r: String)
    ensures
        r@ == address_text(address@),
{
    Pubkey::from(address).to_string()
}

/// `solana_system_interface::instruction::transfer`: the system program, the
/// payer as a writable signer and the recipient as a writable account, and the
/// bincode of `SystemInstruction::Transfer { lamports }`. The instruction is
/// kept beside its fields.
#[verifier::external_body]
pub(crate) fn system_transfer(from: [u8; 32], to: [u8; 32], lamports: u64) -> (r:
    TransferInstruction)
    ensures
        is_transfer_instruction(r.spec_data(), from@, to@, lamports),
{
    let instruction = solana_system_interface::instruction::transfer(
        &Pubkey::from(from),
        &Pubkey::from(to),
        lamports,
    );
    let accounts = instruction.accounts.iter().map(
        |a| AccountRef { pubkey: a.pubkey.to_bytes(), is_signer: a.is_signer, is_writable: a.is_writable },
    ).collect();
    let data = InstructionData { program_id: instruction.program_id.to_bytes(), accounts, data:
        instruction.data.clone() };
    TransferInstruction { data, instruction }
}

/// `Signer::pubkey` of `Keypair::new_from_array(secret)`, as bytes: the
/// ed25519 public key of the secret, named `ed25519_public_key`.
#[verifier::external_body]
fn public_key_of(secret: [u8; 32]) -> (r: [u8; 32])
    ensures
        r@ == ed25519_public_key(secret@),
{
    Keypair::new_from_array(secret).pubkey().to_bytes()
}

/// `Message::new(instructions, Some(payer))`, and the fields of the message it
/// builds. Keys are deduplicated and ordered: the payer first, then the other
/// writable signers, the read-only signers, the writable and the read-only
/// others; a key signs or may be written when any use of it says so or it is
/// the payer. For transfers from the payer that makes the payer the only
/// signer, and every account of every instruction writable. With at most 50
/// transfers the keys number at most 52, so no index overflows a `u8` and the
/// header counts cannot overflow (which would panic). The message as a whole is
/// named `legacy_message`.
#[verifier::external_body]
fn compile_message(instructions: &Vec<&TransferInstruction>, payer: [u8; 32]) -> (r:
    CompiledMessage)
    requires
        instructions@.len() <= 50,
        transfers_from(instructions_data(instructions@), payer@),
    ensures
        is_message_of(r.spec_data(), instructions_data(instructions@), payer@),
        message_view(r.spec_data()) == legacy_message(
            instructions_data(instructions@).map_values(|ix: InstructionData| instruction_view(ix)),
            payer@,
        ),
{
    let ixs: Vec<Instruction> = instructions.iter().map(|t| t.instruction.clone()).collect();
    let message = Message::new(&ixs, Some(&Pubkey::from(payer)));
    let h = &message.header;
    let data = MessageData { num_required_signatures: h.num_required_signatures,
        num_readonly_signed_accounts: h.num_readonly_signed_accounts,
        num_readonly_unsigned_accounts: h.num_readonly_unsigned_accounts,
        account_keys: message.account_keys.iter().map(|k| k.to_bytes()).collect(),
        instructions: message.instructions.iter().map(|c| CompiledInstructionData { program_id_index:
            c.program_id_index, accounts: c.accounts.clone(), data: c.data.clone() }).collect() };
    CompiledMessage { message, data }
}

/// `Transaction::new(&[&Keypair::new_from_array(secret)], message, blockhash)`,
/// then `bincode::serialize` of the transaction. `Transaction::new` sets the
/// message's recent blockhash and signs it; the keypair's public key must be
/// the message's only required signer, else signing panics, and the `requires`
/// says so. The bytes, named `signed_transaction_bytes`, are deterministic in
/// the message (whose fields `compiled` holds beside it), the secret and the
/// blockhash. They start with the signature count, one, as a short vector, then
/// the 64 bytes of the signature, whose `Display` is their base58 text.
#[verifier::external_body]
fn sign_message(compiled: CompiledMessage, secret: [u8; 32], blockhash: [u8; 32]) -> (r:
    SignedTransaction)
    requires
        compiled.spec_data().account_keys@.len() >= 1,
        compiled.spec_data().account_keys@[0]@ == ed25519_public_key(secret@),
        compiled.spec_data().num_required_signatures == 1,
    ensures
        r.message == compiled.spec_data(),
        r.recent_blockhash == blockhash,
        r.wire@ == signed_transaction_bytes(message_view(r.message), secret@, blockhash@),
        r.wire@.len() >= 65,
        r.wire@[0] == 1,
        r.signature@ == base58_text(r.wire@.subrange(1, 65)),
{
    let keypair = Keypair::new_from_array(secret);
    let hash = solana_sdk::hash::Hash::new_from_array(blockhash);
    let transaction = Transaction::new(&[&keypair], compiled.message, hash);
    let wire = bincode::serialize(&transaction).unwrap();
    let recent_blockhash = transaction.message.recent_blockhash.to_bytes();
    let signature = transaction.signatures[0].to_string();
    SignedTransaction { wire, message: compiled.data, recent_blockhash, signature }
}

impl CompiledMessage {
    /// The fields of the compiled message.
    pub closed spec fn spec_data(&self) -> MessageData {
        self.data
    }
}

/// The account that pays for the transfers and signs their transactions: an
/// ed25519 secret key and its public key, the payer's address.
pub struct Payer {
    secret: [u8; 32],
    address: [u8; 32],
}

impl Payer {
    /// The address is the secret's public key.
    #[verifier::type_invariant]
    spec fn address_is_public_key(&self) -> bool {
        self.address@ == ed25519_public_key(self.secret@)
    }

    /// The payer's address.
    pub closed spec fn spec_address(&self) -> [u8; 32] {
        self.address
    }

    /// The payer's secret key.
    pub closed spec fn spec_secret(&self) -> [u8; 32] {
        self.secret
    }

    /// The payer whose secret key is `secret`.
    pub fn from_secret(secret: [u8; 32]) -> (p: Payer)
        ensures
            p.spec_secret() == secret,
            p.spec_address()@ == ed25519_public_key(secret@),
    {
        let address = public_key_of(secret);
        Payer { secret, address }
    }

    /// The payer's address.
    pub fn address(&self) -> (r: [u8; 32])
        ensures
            r == self.spec_address(),
            r@ == ed25519_public_key(self.spec_secret()@),
    {
        proof {
            use_type_invariant(self);
        }
        self.address
    }

    /// The base58 text of the payer's address.
    pub fn address_text(&self) -> (r: String)
        ensures
            r@ == address_text(self.spec_address()@),
    {
        encode_address(self.address)
    }

    /// Signs, with the payer as fee payer and only signer, a transaction that
    /// carries `instructions` in order and has `blockhash` as recent blockhash.
    pub fn sign(&self, instructions: &Vec<&TransferInstruction>, blockhash: [u8; 32]) -> (r:
        SignedTransaction)
        requires
            instructions@.len() <= 50,
            transfers_from(instructions_data(instructions@), self.spec_address()@),
        ensures
            is_signing_of(r, instructions_data(instructions@), *self, blockhash),
    {
        proof {
            use_type_invariant(self);
        }
        let compiled = compile_message(instructions, self.address);
        sign_message(compiled, self.secret, blockhash)
    }
}

} // verus!
