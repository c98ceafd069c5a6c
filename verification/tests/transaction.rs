use remote_signer::transaction::{
    canonicalize, BuildTransactionError, CompiledInstruction, MessageHeader, RawTransactionRequest,
    HASH_BYTES, KEY_BYTES, MAX_ITEMS, SIGNATURE_BYTES,
};

const PAYER: [u8; 32] = [
    0xd7, 0x5a, 0x98, 0x01, 0x82, 0xb1, 0x0a, 0xb7, 0xd5, 0x4b, 0xfe, 0xd3, 0xc9, 0x64, 0x07, 0x3a,
    0x0e, 0xe1, 0x72, 0xf3, 0xda, 0xa6, 0x23, 0x25, 0xaf, 0x02, 0x1a, 0x68, 0xf7, 0x07, 0x51, 0x1a,
];

fn transfer() -> RawTransactionRequest {
    RawTransactionRequest {
        signatures: vec![vec![0; 64]],
        header: MessageHeader {
            num_required_signatures: 1,
            num_readonly_signed_accounts: 0,
            num_readonly_unsigned_accounts: 1,
        },
        account_keys: vec![PAYER.to_vec(), vec![1; 32], vec![0; 32]],
        recent_blockhash: vec![9; 32],
        instructions: vec![CompiledInstruction {
            program_id_index: 2,
            accounts: vec![0, 1],
            data: vec![2, 0, 0, 0, 0x40, 0x42, 0x0f, 0, 0, 0, 0, 0],
        }],
    }
}

fn empty() -> RawTransactionRequest {
    RawTransactionRequest {
        signatures: vec![],
        header: MessageHeader {
            num_required_signatures: 0,
            num_readonly_signed_accounts: 0,
            num_readonly_unsigned_accounts: 0,
        },
        account_keys: vec![],
        recent_blockhash: vec![0; 32],
        instructions: vec![],
    }
}

fn same_in_the_sdk(raw: &RawTransactionRequest) -> solana_sdk::message::Message {
    let mut keys = Vec::new();
    for key in raw.account_keys.iter() {
        keys.push(solana_sdk::pubkey::Pubkey::try_from(key.as_slice()).expect("32 bytes"));
    }
    let mut instructions = Vec::new();
    for i in raw.instructions.iter() {
        instructions.push(solana_sdk::message::compiled_instruction::CompiledInstruction {
            program_id_index: i.program_id_index,
            accounts: i.accounts.clone(),
            data: i.data.clone(),
        });
    }
    let mut hash = [0u8; 32];
    hash.copy_from_slice(&raw.recent_blockhash);
    solana_sdk::message::Message {
        header: solana_sdk::message::MessageHeader {
            num_required_signatures: raw.header.num_required_signatures,
            num_readonly_signed_accounts: raw.header.num_readonly_signed_accounts,
            num_readonly_unsigned_accounts: raw.header.num_readonly_unsigned_accounts,
        },
        account_keys: keys,
        recent_blockhash: solana_sdk::hash::Hash::new_from_array(hash),
        instructions,
    }
}

#[test]
fn sizes_are_those_of_the_ledger() {
    assert_eq!(KEY_BYTES, 32);
    assert_eq!(HASH_BYTES, 32);
    assert_eq!(SIGNATURE_BYTES, 64);
    assert_eq!(MAX_ITEMS, 65535);
}

#[test]
fn well_formed_transaction_is_canonical() {
    assert!(canonicalize(transfer()).is_ok());
    assert!(canonicalize(empty()).is_ok());
}

#[test]
fn message_bytes_of_a_transfer() {
    let tx = canonicalize(transfer()).expect("well formed");
    let mut expected: Vec<u8> = vec![1, 0, 1, 3];
    expected.extend_from_slice(&PAYER);
    expected.extend_from_slice(&[1; 32]);
    expected.extend_from_slice(&[0; 32]);
    expected.extend_from_slice(&[9; 32]);
    expected.extend_from_slice(&[1, 2, 2, 0, 1, 12, 2, 0, 0, 0, 0x40, 0x42, 0x0f, 0, 0, 0, 0, 0]);
    assert_eq!(expected.len(), 150);
    assert_eq!(tx.message_data(), expected);
}

#[test]
fn message_bytes_of_an_empty_transaction() {
    let tx = canonicalize(empty()).expect("well formed");
    let mut expected: Vec<u8> = vec![0, 0, 0, 0];
    expected.extend_from_slice(&[0; 32]);
    expected.push(0);
    assert_eq!(tx.message_data(), expected);
}

#[test]
fn message_bytes_do_not_depend_on_the_signatures() {
    let mut signed = transfer();
    signed.signatures = vec![vec![0xff; 64], vec![0xee; 64]];
    let a = canonicalize(signed).expect("well formed").message_data();
    let b = canonicalize(transfer()).expect("well formed").message_data();
    assert_eq!(a, b);
}

#[test]
fn message_bytes_are_those_of_the_sdk() {
    let mut long = transfer();
    long.instructions[0].data = vec![0x5a; 300];
    long.instructions.push(CompiledInstruction {
        program_id_index: 1,
        accounts: vec![],
        data: vec![],
    });
    for raw in [transfer(), empty(), long] {
        let theirs = same_in_the_sdk(&raw).serialize();
        let ours = canonicalize(raw).expect("well formed").message_data();
        assert_eq!(ours, theirs);
    }
}

#[test]
fn canonicalizing_twice_gives_the_same_bytes() {
    let first = canonicalize(transfer()).expect("well formed");
    let second = canonicalize(transfer()).expect("well formed");
    assert_eq!(first, second);
    assert_eq!(first.message_data(), second.message_data());
    assert_eq!(first.message_data(), first.message_data());
}

#[test]
fn lists_of_the_greatest_length_are_accepted() {
    let mut raw = empty();
    raw.signatures = vec![vec![0; 64]; MAX_ITEMS];
    raw.account_keys = vec![vec![3; 32]; MAX_ITEMS];
    raw.instructions = vec![CompiledInstruction {
        program_id_index: 0,
        accounts: vec![0; MAX_ITEMS],
        data: vec![1; MAX_ITEMS],
    }];
    let theirs = same_in_the_sdk(&raw).serialize();
    let tx = canonicalize(raw).expect("well formed");
    assert_eq!(tx.message_data(), theirs);
}

#[test]
fn too_many_signatures() {
    let mut raw = transfer();
    raw.signatures = vec![vec![0; 64]; MAX_ITEMS + 1];
    assert_eq!(canonicalize(raw), Err(BuildTransactionError::TooManySignatures));
}

#[test]
fn signature_of_another_length() {
    let mut raw = transfer();
    raw.signatures = vec![vec![0; 64], vec![0; 63], vec![0; 65]];
    assert_eq!(canonicalize(raw), Err(BuildTransactionError::SignatureLength(1)));
    let mut raw = transfer();
    raw.signatures = vec![vec![]];
    assert_eq!(canonicalize(raw), Err(BuildTransactionError::SignatureLength(0)));
}

#[test]
fn too_many_account_keys() {
    let mut raw = transfer();
    raw.account_keys = vec![vec![0; 32]; MAX_ITEMS + 1];
    assert_eq!(canonicalize(raw), Err(BuildTransactionError::TooManyAccountKeys));
}

#[test]
fn account_key_of_another_length() {
    let mut raw = transfer();
    raw.account_keys[2] = vec![0; 31];
    assert_eq!(canonicalize(raw), Err(BuildTransactionError::AccountKeyLength(2)));
    let mut raw = transfer();
    raw.account_keys[0] = vec![0; 33];
    raw.account_keys[1] = vec![];
    assert_eq!(canonicalize(raw), Err(BuildTransactionError::AccountKeyLength(0)));
}

#[test]
fn blockhash_of_another_length() {
    for len in [0usize, 31, 33, 64] {
        let mut raw = transfer();
        raw.recent_blockhash = vec![9; len];
        assert_eq!(canonicalize(raw), Err(BuildTransactionError::BlockhashLength));
    }
}

#[test]
fn too_many_instructions() {
    let mut raw = empty();
    for _ in 0..MAX_ITEMS + 1 {
        raw.instructions.push(CompiledInstruction {
            program_id_index: 0,
            accounts: vec![],
            data: vec![],
        });
    }
    assert_eq!(canonicalize(raw), Err(BuildTransactionError::TooManyInstructions));
}

#[test]
fn instruction_with_too_many_accounts() {
    let mut raw = transfer();
    raw.instructions.push(CompiledInstruction {
        program_id_index: 2,
        accounts: vec![0; MAX_ITEMS + 1],
        data: vec![0; MAX_ITEMS + 1],
    });
    assert_eq!(canonicalize(raw), Err(BuildTransactionError::TooManyInstructionAccounts(1)));
}

#[test]
fn instruction_with_too_much_data() {
    let mut raw = transfer();
    raw.instructions[0].data = vec![0; MAX_ITEMS + 1];
    raw.instructions.push(CompiledInstruction {
        program_id_index: 2,
        accounts: vec![0; MAX_ITEMS + 1],
        data: vec![],
    });
    assert_eq!(canonicalize(raw), Err(BuildTransactionError::InstructionDataTooLong(0)));
}

#[test]
fn the_first_failed_check_is_reported() {
    let mut raw = transfer();
    raw.signatures = vec![vec![0; 1]];
    raw.account_keys = vec![vec![0; 1]];
    raw.recent_blockhash = vec![];
    raw.instructions[0].data = vec![0; MAX_ITEMS + 1];
    assert_eq!(canonicalize(raw), Err(BuildTransactionError::SignatureLength(0)));

    let mut raw = transfer();
    raw.account_keys = vec![vec![0; 1]];
    raw.recent_blockhash = vec![];
    raw.instructions[0].data = vec![0; MAX_ITEMS + 1];
    assert_eq!(canonicalize(raw), Err(BuildTransactionError::AccountKeyLength(0)));

    let mut raw = transfer();
    raw.recent_blockhash = vec![];
    raw.instructions[0].data = vec![0; MAX_ITEMS + 1];
    assert_eq!(canonicalize(raw), Err(BuildTransactionError::BlockhashLength));
}

#[test]
fn indexes_into_the_account_keys_are_not_checked() {
    // Whether an instruction's indexes name accounts that exist is for the
    // ledger to judge: the shape alone decides here.
    let mut raw = transfer();
    raw.instructions[0].program_id_index = 200;
    raw.instructions[0].accounts = vec![255, 254];
    raw.header.num_required_signatures = 9;
    assert!(canonicalize(raw).is_ok());
}
