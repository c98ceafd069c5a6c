//! Transactions: what a caller hands in, and the canonical form that is signed.
//!
//! A caller's transaction is untrusted. [`canonicalize`] checks its shape and
//! turns it into a [`CanonicalTransaction`], whose keys, hash and signatures
//! have their fixed sizes and whose lists are short enough to be encoded.
use crate::bytes::to_array;
use crate::text::{decimal, decimal_text};
use solana_sdk::message::{self as sdk, compiled_instruction as compiled};
use solana_sdk::pubkey::Pubkey;
use vstd::prelude::*;

verus! {

/// The number of bytes in an account key.
pub const KEY_BYTES: usize = 32;

/// The number of bytes in a block hash.
pub const HASH_BYTES: usize = 32;

/// The number of bytes in a signature.
pub const SIGNATURE_BYTES: usize = 64;

/// The most items a list may hold: its length is encoded in sixteen bits.
pub const MAX_ITEMS: usize = 65535;

/// How many of a message's accounts sign, and which are read-only.
#[derive(Clone, Copy, Debug, PartialEq, Eq, Structural)]
pub struct MessageHeader {
    pub num_required_signatures: u8,
    pub num_readonly_signed_accounts: u8,
    pub num_readonly_unsigned_accounts: u8,
}

/// One instruction of a message, with its accounts given by index.
#[derive(Debug, PartialEq, Eq)]
pub struct CompiledInstruction {
    pub program_id_index: u8,
    pub accounts: Vec<u8>,
    pub data: Vec<u8>,
}

/// The mathematical value of a [`CompiledInstruction`].
pub struct InstructionView {
    pub program_id_index: u8,
    pub accounts: Seq<u8>,
    pub data: Seq<u8>,
}

/// The mathematical value of a message.
pub struct MessageView {
    pub header: MessageHeader,
    pub account_keys: Seq<Seq<u8>>,
    pub recent_blockhash: Seq<u8>,
    pub instructions: Seq<InstructionView>,
}

/// The mathematical value of a transaction.
pub struct TransactionView {
    pub signatures: Seq<Seq<u8>>,
    pub message: MessageView,
}

impl View for CompiledInstruction {
    type V = InstructionView;

    open spec fn view(&self) -> InstructionView {
        InstructionView {
            program_id_index: self.program_id_index,
            accounts: self.accounts@,
            data: self.data@,
        }
    }
}

/// The values of a list of instructions, in order.
pub open spec fn instruction_views(items: Seq<CompiledInstruction>) -> Seq<InstructionView> {
    Seq::new(items.len(), |i: int| items[i]@)
}

/// The contents of a list of byte strings, in order.
pub open spec fn byte_rows(items: Seq<Vec<u8>>) -> Seq<Seq<u8>> {
    Seq::new(items.len(), |i: int| items[i]@)
}

/// The contents of a list of fixed-size byte strings, in order.
pub open spec fn fixed_rows<const N: usize>(items: Seq<[u8; N]>) -> Seq<Seq<u8>> {
    Seq::new(items.len(), |i: int| items[i]@)
}

/// A transaction as a caller hands it in. Nothing is known of its shape.
#[derive(Debug, PartialEq, Eq)]
pub struct RawTransactionRequest {
    pub signatures: Vec<Vec<u8>>,
    pub header: MessageHeader,
    pub account_keys: Vec<Vec<u8>>,
    pub recent_blockhash: Vec<u8>,
    pub instructions: Vec<CompiledInstruction>,
}

impl View for RawTransactionRequest {
    type V = TransactionView;

    open spec fn view(&self) -> TransactionView {
        TransactionView {
            signatures: byte_rows(self.signatures@),
            message: MessageView {
                header: self.header,
                account_keys: byte_rows(self.account_keys@),
                recent_blockhash: self.recent_blockhash@,
                instructions: instruction_views(self.instructions@),
            },
        }
    }
}

/// Why a transaction cannot be brought into canonical form.
///
/// The checks run in the order of the variants; an index is that of the
/// first item that fails its check.
#[derive(Clone, Copy, Debug, PartialEq, Eq, Structural)]
pub enum BuildTransactionError {
    /// There are more signatures than a list may hold.
    TooManySignatures,
    /// The signature at this index is not 64 bytes long.
    SignatureLength(usize),
    /// There are more account keys than a list may hold.
    TooManyAccountKeys,
    /// The account key at this index is not 32 bytes long.
    AccountKeyLength(usize),
    /// The block hash is not 32 bytes long.
    BlockhashLength,
    /// There are more instructions than a list may hold.
    TooManyInstructions,
    /// The instruction at this index names more accounts than a list may hold.
    TooManyInstructionAccounts(usize),
    /// The instruction at this index has more data than a list may hold.
    InstructionDataTooLong(usize),
}

impl BuildTransactionError {
    /// The text that names the failed check.
    pub open spec fn reason(self) -> Seq<char> {
        match self {
            BuildTransactionError::TooManySignatures => "too many signatures"@,
            BuildTransactionError::SignatureLength(i) => "signature "@ + decimal_text(i as nat)
                + " is not 64 bytes long"@,
            BuildTransactionError::TooManyAccountKeys => "too many account keys"@,
            BuildTransactionError::AccountKeyLength(i) => "account key "@ + decimal_text(i as nat)
                + " is not 32 bytes long"@,
            BuildTransactionError::BlockhashLength => "recent blockhash is not 32 bytes long"@,
            BuildTransactionError::TooManyInstructions => "too many instructions"@,
            BuildTransactionError::TooManyInstructionAccounts(i) => "instruction "@ + decimal_text(
                i as nat,
            ) + " names too many accounts"@,
            BuildTransactionError::InstructionDataTooLong(i) => "instruction "@ + decimal_text(
                i as nat,
            ) + " has too much data"@,
        }
    }

    /// The text that names the failed check.
    pub fn message(&self) -> (text: String)
        ensures
            text@ == self.reason(),
    {
        match self {
            BuildTransactionError::TooManySignatures => String::from_str("too many signatures"),
            BuildTransactionError::SignatureLength(i) => String::from_str("signature ").concat(
                decimal(*i as u64).as_str(),
            ).concat(" is not 64 bytes long"),
            BuildTransactionError::TooManyAccountKeys => String::from_str("too many account keys"),
            BuildTransactionError::AccountKeyLength(i) => String::from_str("account key ").concat(
                decimal(*i as u64).as_str(),
            ).concat(" is not 32 bytes long"),
            BuildTransactionError::BlockhashLength => String::from_str(
                "recent blockhash is not 32 bytes long",
            ),
            BuildTransactionError::TooManyInstructions => String::from_str("too many instructions"),
            BuildTransactionError::TooManyInstructionAccounts(i) => String::from_str(
                "instruction ",
            ).concat(decimal(*i as u64).as_str()).concat(" names too many accounts"),
            BuildTransactionError::InstructionDataTooLong(i) => String::from_str(
                "instruction ",
            ).concat(decimal(*i as u64).as_str()).concat(" has too much data"),
        }
    }
}

/// Every row has exactly `len` bytes.
pub open spec fn all_of_length(rows: Seq<Seq<u8>>, len: int) -> bool {
    forall|i: int| 0 <= i < rows.len() ==> (#[trigger] rows[i]).len() == len
}

/// Row `at` is the first that does not have exactly `len` bytes.
pub open spec fn first_of_other_length(rows: Seq<Seq<u8>>, len: int, at: int) -> bool {
    &&& 0 <= at < rows.len()
    &&& rows[at].len() != len
    &&& all_of_length(rows.take(at), len)
}

impl InstructionView {
    /// The instruction's lists are short enough to be encoded.
    pub open spec fn well_formed(self) -> bool {
        &&& self.accounts.len() <= MAX_ITEMS
        &&& self.data.len() <= MAX_ITEMS
    }
}

/// Every instruction is well formed.
pub open spec fn all_well_formed(items: Seq<InstructionView>) -> bool {
    forall|i: int| 0 <= i < items.len() ==> (#[trigger] items[i]).well_formed()
}

/// `e` names the first instruction that is not well formed, and the first
/// of its lists that is too long.
pub open spec fn first_oversized(items: Seq<InstructionView>, e: BuildTransactionError) -> bool {
    match e {
        BuildTransactionError::TooManyInstructionAccounts(i) => {
            &&& 0 <= i < items.len()
            &&& all_well_formed(items.take(i as int))
            &&& items[i as int].accounts.len() > MAX_ITEMS
        },
        BuildTransactionError::InstructionDataTooLong(i) => {
            &&& 0 <= i < items.len()
            &&& all_well_formed(items.take(i as int))
            &&& items[i as int].accounts.len() <= MAX_ITEMS
            &&& items[i as int].data.len() > MAX_ITEMS
        },
        _ => false,
    }
}

impl MessageView {
    /// The account keys have their count and sizes in order.
    pub open spec fn account_keys_ok(self) -> bool {
        &&& self.account_keys.len() <= MAX_ITEMS
        &&& all_of_length(self.account_keys, KEY_BYTES as int)
    }

    /// The block hash has its size.
    pub open spec fn blockhash_ok(self) -> bool {
        self.recent_blockhash.len() == HASH_BYTES
    }

    /// The instructions have their count and sizes in order.
    pub open spec fn instructions_ok(self) -> bool {
        &&& self.instructions.len() <= MAX_ITEMS
        &&& all_well_formed(self.instructions)
    }

    /// The message can be encoded: every part has its size, and no list is
    /// longer than its length prefix can say.
    pub open spec fn well_formed(self) -> bool {
        &&& self.account_keys_ok()
        &&& self.blockhash_ok()
        &&& self.instructions_ok()
    }
}

impl TransactionView {
    /// The signatures have their count and sizes in order.
    pub open spec fn signatures_ok(self) -> bool {
        &&& self.signatures.len() <= MAX_ITEMS
        &&& all_of_length(self.signatures, SIGNATURE_BYTES as int)
    }

    /// The transaction has the shape of a canonical transaction.
    pub open spec fn well_formed(self) -> bool {
        &&& self.signatures_ok()
        &&& self.message.well_formed()
    }

    /// `e` is the first check, in the order of the variants of
    /// [`BuildTransactionError`], that the transaction fails.
    pub open spec fn fails_with(self, e: BuildTransactionError) -> bool {
        let m = self.message;
        match e {
            BuildTransactionError::TooManySignatures => self.signatures.len() > MAX_ITEMS,
            BuildTransactionError::SignatureLength(i) => {
                &&& self.signatures.len() <= MAX_ITEMS
                &&& first_of_other_length(self.signatures, SIGNATURE_BYTES as int, i as int)
            },
            BuildTransactionError::TooManyAccountKeys => {
                &&& self.signatures_ok()
                &&& m.account_keys.len() > MAX_ITEMS
            },
            BuildTransactionError::AccountKeyLength(i) => {
                &&& self.signatures_ok()
                &&& m.account_keys.len() <= MAX_ITEMS
                &&& first_of_other_length(m.account_keys, KEY_BYTES as int, i as int)
            },
            BuildTransactionError::BlockhashLength => {
                &&& self.signatures_ok()
                &&& m.account_keys_ok()
                &&& !m.blockhash_ok()
            },
            BuildTransactionError::TooManyInstructions => {
                &&& self.signatures_ok()
                &&& m.account_keys_ok()
                &&& m.blockhash_ok()
                &&& m.instructions.len() > MAX_ITEMS
            },
            BuildTransactionError::TooManyInstructionAccounts(_)
            | BuildTransactionError::InstructionDataTooLong(_) => {
                &&& self.signatures_ok()
                &&& m.account_keys_ok()
                &&& m.blockhash_ok()
                &&& m.instructions.len() <= MAX_ITEMS
                &&& first_oversized(m.instructions, e)
            },
        }
    }
}

/// Each row of `rows` as an array of `N`, or the index of the first row
/// that does not have exactly `N` bytes.
fn to_arrays<const N: usize>(rows: &Vec<Vec<u8>>) -> (out: Result<Vec<[u8; N]>, usize>)
    ensures
        match out {
            Ok(arrays) => {
                &&& all_of_length(byte_rows(rows@), N as int)
                &&& fixed_rows(arrays@) == byte_rows(rows@)
            },
            Err(at) => first_of_other_length(byte_rows(rows@), N as int, at as int),
        },
{
    let ghost all = byte_rows(rows@);
    let mut arrays: Vec<[u8; N]> = Vec::new();
    let mut i: usize = 0;
    while i < rows.len()
        invariant
            all == byte_rows(rows@),
            i <= rows.len(),
            arrays.len() == i,
            forall|j: int| 0 <= j < i ==> (#[trigger] all[j]).len() == N,
            forall|j: int| 0 <= j < i ==> (#[trigger] arrays@[j])@ == all[j],
        decreases rows.len() - i,
    {
        match to_array::<N>(&rows[i]) {
            Some(array) => {
                arrays.push(array);
            },
            None => {
                return Err(i);
            },
        }
        i += 1;
    }
    Ok(arrays)
}

/// Checks that every instruction's lists are short enough to be encoded.
fn check_instructions(items: &Vec<CompiledInstruction>) -> (out: Result<(), BuildTransactionError>)
    ensures
        match out {
            Ok(()) => all_well_formed(instruction_views(items@)),
            Err(e) => first_oversized(instruction_views(items@), e),
        },
{
    let ghost all = instruction_views(items@);
    let mut i: usize = 0;
    while i < items.len()
        invariant
            all == instruction_views(items@),
            i <= items.len(),
            forall|j: int| 0 <= j < i ==> (#[trigger] all[j]).well_formed(),
        decreases items.len() - i,
    {
        if items[i].accounts.len() > MAX_ITEMS {
            return Err(BuildTransactionError::TooManyInstructionAccounts(i));
        }
        if items[i].data.len() > MAX_ITEMS {
            return Err(BuildTransactionError::InstructionDataTooLong(i));
        }
        i += 1;
    }
    Ok(())
}

/// A transaction in canonical form: exactly one concrete, signable
/// transaction, every part of which has its size.
#[derive(Debug, PartialEq, Eq)]
pub struct CanonicalTransaction {
    signatures: Vec<[u8; 64]>,
    header: MessageHeader,
    account_keys: Vec<[u8; 32]>,
    recent_blockhash: [u8; 32],
    instructions: Vec<CompiledInstruction>,
}

impl View for CanonicalTransaction {
    type V = TransactionView;

    closed spec fn view(&self) -> TransactionView {
        TransactionView {
            signatures: fixed_rows(self.signatures@),
            message: MessageView {
                header: self.header,
                account_keys: fixed_rows(self.account_keys@),
                recent_blockhash: self.recent_blockhash@,
                instructions: instruction_views(self.instructions@),
            },
        }
    }
}

/// The bytes over which a message is signed.
///
/// This is the wire encoding that the Solana SDK gives a message. It is a
/// function of the message alone.
pub uninterp spec fn message_encoding(message: MessageView) -> Seq<u8>;

/// What [`canonicalize`] returns for a transaction whose value is `request`:
/// the same transaction if it is well formed, else the first check it fails.
pub open spec fn canonicalized(
    request: TransactionView,
    outcome: Result<TransactionView, BuildTransactionError>,
) -> bool {
    match outcome {
        Ok(tx) => request.well_formed() && tx == request,
        Err(e) => request.fails_with(e),
    }
}

impl CanonicalTransaction {
    #[verifier::type_invariant]
    spec fn shaped(&self) -> bool {
        self@.well_formed()
    }

    /// The bytes of the message, which are what a signer signs.
    pub fn message_data(&self) -> (bytes: Vec<u8>)
        ensures
            bytes@ == message_encoding(self@.message),
    {
        proof {
            use_type_invariant(self);
        }
        serialize_message(self)
    }
}

/// Calls `solana_sdk::message::Message::serialize` on the message of `tx`.
///
/// Trusted: the bytes returned are the SDK's encoding of a message with
/// these fields, which depends on the fields alone; [`message_encoding`]
/// names it. The SDK's function fails only on a list too long for its
/// length prefix, which `requires` rules out.
#[verifier::external_body]
fn serialize_message(tx: &CanonicalTransaction) -> (bytes: Vec<u8>)
    requires
        tx@.well_formed(),
    ensures
        bytes@ == message_encoding(tx@.message),
{
    let header = sdk::MessageHeader {
        num_required_signatures: tx.header.num_required_signatures,
        num_readonly_signed_accounts: tx.header.num_readonly_signed_accounts,
        num_readonly_unsigned_accounts: tx.header.num_readonly_unsigned_accounts,
    };
    let account_keys = tx.account_keys.iter().map(|key| Pubkey::from(*key)).collect();
    let recent_blockhash = solana_sdk::hash::Hash::from(tx.recent_blockhash);
    let instructions = tx.instructions.iter().map(|i| compiled::CompiledInstruction {
        program_id_index: i.program_id_index,
        accounts: i.accounts.clone(),
        data: i.data.clone(),
    }).collect();
    sdk::Message { header, account_keys, recent_blockhash, instructions }.serialize()
}

/// Brings a caller's transaction into canonical form.
///
/// Succeeds exactly on the well-formed transactions, and then returns the
/// same transaction, field for field. Otherwise it names the first check
/// that failed.
pub fn canonicalize(request: RawTransactionRequest) -> (res: Result<
    CanonicalTransaction,
    BuildTransactionError,
>)
    ensures
        res is Ok <==> request@.well_formed(),
        match res {
            Ok(tx) => canonicalized(request@, Ok(tx@)),
            Err(e) => canonicalized(request@, Err(e)),
        },
{
    if request.signatures.len() > MAX_ITEMS {
        return Err(BuildTransactionError::TooManySignatures);
    }
    let signatures = match to_arrays::<64>(&request.signatures) {
        Ok(v) => v,
        Err(at) => {
            return Err(BuildTransactionError::SignatureLength(at));
        },
    };
    if request.account_keys.len() > MAX_ITEMS {
        return Err(BuildTransactionError::TooManyAccountKeys);
    }
    let account_keys = match to_arrays::<32>(&request.account_keys) {
        Ok(v) => v,
        Err(at) => {
            return Err(BuildTransactionError::AccountKeyLength(at));
        },
    };
    let recent_blockhash = match to_array::<32>(&request.recent_blockhash) {
        Some(a) => a,
        None => {
            return Err(BuildTransactionError::BlockhashLength);
        },
    };
    if request.instructions.len() > MAX_ITEMS {
        return Err(BuildTransactionError::TooManyInstructions);
    }
    match check_instructions(&request.instructions) {
        Ok(()) => {},
        Err(e) => {
            return Err(e);
        },
    }
    Ok(
        CanonicalTransaction {
            signatures,
            header: request.header,
            account_keys,
            recent_blockhash,
            instructions: request.instructions,
        },
    )
}

/// At most one row is the first of another length.
proof fn first_of_other_length_is_unique(rows: Seq<Seq<u8>>, len: int, a: int, b: int)
    requires
        first_of_other_length(rows, len, a),
        first_of_other_length(rows, len, b),
    ensures
        a == b,
{
    if a < b {
        assert(rows.take(b)[a] == rows[a]);
    } else if b < a {
        assert(rows.take(a)[b] == rows[b]);
    }
}

/// A row of another length means that not all rows have the length.
proof fn first_of_other_length_is_a_fault(rows: Seq<Seq<u8>>, len: int, at: int)
    requires
        first_of_other_length(rows, len, at),
    ensures
        !all_of_length(rows, len),
{
}

/// An oversized instruction means that not all instructions are well formed.
proof fn first_oversized_is_a_fault(items: Seq<InstructionView>, e: BuildTransactionError)
    requires
        first_oversized(items, e),
    ensures
        !all_well_formed(items),
{
}

/// At most one error names the first oversized instruction.
proof fn first_oversized_is_unique(
    items: Seq<InstructionView>,
    a: BuildTransactionError,
    b: BuildTransactionError,
)
    requires
        first_oversized(items, a),
        first_oversized(items, b),
    ensures
        a == b,
{
    let i = match a {
        BuildTransactionError::TooManyInstructionAccounts(i) => i as int,
        BuildTransactionError::InstructionDataTooLong(i) => i as int,
        _ => 0,
    };
    let j = match b {
        BuildTransactionError::TooManyInstructionAccounts(j) => j as int,
        BuildTransactionError::InstructionDataTooLong(j) => j as int,
        _ => 0,
    };
    if i < j {
        assert(items.take(j)[i].well_formed());
    } else if j < i {
        assert(items.take(i)[j].well_formed());
    }
}

/// A transaction that fails a check is not well formed.
pub proof fn fault_excludes_well_formed(tx: TransactionView, e: BuildTransactionError)
    requires
        tx.fails_with(e),
    ensures
        !tx.well_formed(),
{
    match e {
        BuildTransactionError::SignatureLength(i) => {
            first_of_other_length_is_a_fault(tx.signatures, SIGNATURE_BYTES as int, i as int);
        },
        BuildTransactionError::AccountKeyLength(i) => {
            first_of_other_length_is_a_fault(tx.message.account_keys, KEY_BYTES as int, i as int);
        },
        BuildTransactionError::TooManyInstructionAccounts(_)
        | BuildTransactionError::InstructionDataTooLong(_) => {
            first_oversized_is_a_fault(tx.message.instructions, e);
        },
        _ => {},
    }
}

/// A transaction fails at most one check first: the error that
/// [`canonicalize`] returns for it is determined by the transaction.
pub proof fn fault_is_unique(tx: TransactionView, a: BuildTransactionError, b: BuildTransactionError)
    requires
        tx.fails_with(a),
        tx.fails_with(b),
    ensures
        a == b,
{
    match (a, b) {
        (BuildTransactionError::SignatureLength(i), BuildTransactionError::SignatureLength(j)) => {
            first_of_other_length_is_unique(
                tx.signatures,
                SIGNATURE_BYTES as int,
                i as int,
                j as int,
            );
        },
        (BuildTransactionError::SignatureLength(i), _) => {
            first_of_other_length_is_a_fault(tx.signatures, SIGNATURE_BYTES as int, i as int);
        },
        (_, BuildTransactionError::SignatureLength(j)) => {
            first_of_other_length_is_a_fault(tx.signatures, SIGNATURE_BYTES as int, j as int);
        },
        (BuildTransactionError::AccountKeyLength(i), BuildTransactionError::AccountKeyLength(j)) => {
            first_of_other_length_is_unique(
                tx.message.account_keys,
                KEY_BYTES as int,
                i as int,
                j as int,
            );
        },
        (BuildTransactionError::AccountKeyLength(i), _) => {
            first_of_other_length_is_a_fault(tx.message.account_keys, KEY_BYTES as int, i as int);
        },
        (_, BuildTransactionError::AccountKeyLength(j)) => {
            first_of_other_length_is_a_fault(tx.message.account_keys, KEY_BYTES as int, j as int);
        },
        _ => {
            if first_oversized(tx.message.instructions, a) && first_oversized(
                tx.message.instructions,
                b,
            ) {
                first_oversized_is_unique(tx.message.instructions, a, b);
            }
        },
    }
}

/// Canonicalization is deterministic: whatever [`canonicalize`] may return
/// for one transaction, by its contract, is one and the same outcome, and
/// where that is a canonical transaction, the bytes to sign are the same.
pub proof fn canonical_form_is_unique(
    request: TransactionView,
    first: Result<TransactionView, BuildTransactionError>,
    second: Result<TransactionView, BuildTransactionError>,
)
    requires
        canonicalized(request, first),
        canonicalized(request, second),
    ensures
        first == second,
        first matches Ok(a) ==> second matches Ok(b) && message_encoding(a.message)
            == message_encoding(b.message),
{
    match (first, second) {
        (Err(a), Err(b)) => {
            fault_is_unique(request, a, b);
        },
        (Err(a), Ok(_)) => {
            fault_excludes_well_formed(request, a);
        },
        (Ok(_), Err(b)) => {
            fault_excludes_well_formed(request, b);
        },
        (Ok(_), Ok(_)) => {},
    }
}

} // verus!
