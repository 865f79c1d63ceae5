//! The attestation verifier for signed quality scores.
//!
//! The engine does no signature cryptography of its own. The caller submits,
//! in the same atomic bundle and at its first position, an instruction for
//! the Ed25519 verification program; the host has checked that instruction
//! before the engine runs and lists it in the instructions account. The
//! engine only checks that the instruction vouches for exactly the
//! signature, key and message it expects: byte for byte.
//!
//! The data of such an instruction starts with a header of 16 bytes:
//!
//! | bytes  | meaning                                   |
//! |--------|-------------------------------------------|
//! | 0      | number of signatures                      |
//! | 1      | padding                                   |
//! | 2..4   | offset of the signature                   |
//! | 4..6   | instruction index of the signature        |
//! | 6..8   | offset of the public key                  |
//! | 8..10  | instruction index of the public key       |
//! | 10..12 | offset of the message                     |
//! | 12..14 | length of the message                     |
//! | 14..16 | instruction index of the message          |
//!
//! Offsets and lengths are 16-bit little-endian.

use vstd::prelude::*;

use crate::error::EscrowError;
use crate::state::{id_bytes, Address};
use anchor_lang::solana_program::account_info::AccountInfo;
use anchor_lang::solana_program::pubkey::Pubkey;
use anchor_lang::solana_program::sysvar::instructions::load_instruction_at_checked;

verus! {

/// The length of the header of a verification record.
pub const HEADER_LEN: usize = 16;

/// The account in which the host lists the instructions of the bundle.
#[derive(Clone, Debug, PartialEq, Eq)]
pub struct InstructionsSysvar {
    /// The address of the account.
    pub key: Address,
    /// The data of the account.
    pub data: Vec<u8>,
}

/// An instruction as it was submitted beside the call: the program it is
/// addressed to and its data.
#[derive(Clone, Debug, PartialEq, Eq)]
pub struct VerificationRecord {
    pub program_id: Address,
    pub data: Vec<u8>,
}

impl VerificationRecord {
    /// The record as plain bytes: the program's address and the data.
    pub open spec fn parts(self) -> (Seq<u8>, Seq<u8>) {
        (self.program_id.bytes@, self.data@)
    }
}

/// The parts of a record that may be missing.
pub open spec fn parts_of(instruction: Option<VerificationRecord>) -> Option<(Seq<u8>, Seq<u8>)> {
    match instruction {
        Some(record) => Some(record.parts()),
        None => None,
    }
}

/// The address of the Ed25519 verification program.
pub open spec fn ed25519_program_bytes() -> Seq<u8> {
    seq![
        3u8, 125, 70, 214, 124, 147, 251, 190, 18, 249, 66, 143, 131, 141, 64, 255,
        5, 112, 116, 73, 39, 244, 138, 100, 252, 202, 112, 68, 128, 0, 0, 0,
    ]
}

/// The address of the instructions account.
pub open spec fn instructions_sysvar_bytes() -> Seq<u8> {
    seq![
        6u8, 167, 213, 23, 24, 123, 209, 102, 53, 218, 212, 4, 85, 253, 194, 192,
        193, 36, 198, 143, 33, 86, 117, 165, 219, 186, 203, 95, 8, 0, 0, 0,
    ]
}

/// The first instruction that an account with the given address and data
/// lists, as the host's own reader finds it: the address of its program and
/// its data, or nothing where the reader finds none.
pub uninterp spec fn first_instruction(sysvar_key: Seq<u8>, sysvar_data: Seq<u8>) -> Option<
    (Seq<u8>, Seq<u8>),
>;

/// The 16-bit little-endian number at `at`.
pub open spec fn le_u16(data: Seq<u8>, at: int) -> int {
    data[at] + 256 * data[at + 1]
}

/// Whether `data` holds exactly `expected` from `offset` on.
pub open spec fn holds_at(data: Seq<u8>, offset: int, expected: Seq<u8>) -> bool {
    &&& 0 <= offset
    &&& offset + expected.len() <= data.len()
    &&& data.subrange(offset, offset + expected.len()) == expected
}

/// Whether an instruction for `program_id` with the data `data` vouches for
/// `signature` by `verifier` over `message`: it is addressed to the Ed25519
/// program, has a full header, carries exactly one signature, and holds the
/// three byte strings where its header says. A field that reaches past the
/// end of the data holds nothing.
pub open spec fn record_vouches(
    program_id: Seq<u8>,
    data: Seq<u8>,
    signature: Seq<u8>,
    verifier: Seq<u8>,
    message: Seq<u8>,
) -> bool {
    &&& program_id == ed25519_program_bytes()
    &&& data.len() >= HEADER_LEN
    &&& data[0] == 1
    &&& holds_at(data, le_u16(data, 2), signature)
    &&& holds_at(data, le_u16(data, 6), verifier)
    &&& le_u16(data, 12) == message.len()
    &&& holds_at(data, le_u16(data, 10), message)
}

/// Whether there is an instruction and it vouches for the attestation.
pub open spec fn instruction_vouches(
    instruction: Option<(Seq<u8>, Seq<u8>)>,
    signature: Seq<u8>,
    verifier: Seq<u8>,
    message: Seq<u8>,
) -> bool {
    instruction matches Some(parts) && record_vouches(
        parts.0,
        parts.1,
        signature,
        verifier,
        message,
    )
}

/// The decimal digits of a number, in ASCII, without leading zeros.
pub open spec fn decimal_digits(value: u8) -> Seq<u8> {
    if value < 10 {
        seq![(48 + value) as u8]
    } else if value < 100 {
        seq![(48 + value / 10) as u8, (48 + value % 10) as u8]
    } else {
        seq![(48 + value / 100) as u8, (48 + (value / 10) % 10) as u8, (48 + value % 10) as u8]
    }
}

/// The message a verifier signs: the transaction identifier, a colon, and
/// the quality score in decimal.
pub open spec fn canonical_message(transaction_id: Seq<char>, quality_score: u8) -> Seq<u8> {
    id_bytes(transaction_id) + seq![58u8] + decimal_digits(quality_score)
}

/// An instruction vouches for one attestation only: once it vouches for a
/// signature, a key and a message, it vouches for no other signature and no
/// other key of those lengths, and for no other message. So an attestation
/// in which any one byte of the signature, of the key or of the message was
/// altered is refused.
pub proof fn lemma_altered_attestation_refused(
    program_id: Seq<u8>,
    data: Seq<u8>,
    signature: Seq<u8>,
    verifier: Seq<u8>,
    message: Seq<u8>,
    altered_signature: Seq<u8>,
    altered_verifier: Seq<u8>,
    altered_message: Seq<u8>,
)
    requires
        record_vouches(program_id, data, signature, verifier, message),
        altered_signature.len() == signature.len(),
        altered_verifier.len() == verifier.len(),
        altered_signature != signature || altered_verifier != verifier || altered_message
            != message,
    ensures
        !record_vouches(program_id, data, altered_signature, altered_verifier, altered_message),
{
    if record_vouches(program_id, data, altered_signature, altered_verifier, altered_message) {
        assert(altered_signature == signature);
        assert(altered_verifier == verifier);
        assert(altered_message.len() == message.len());
        assert(altered_message == message);
    }
}

/// An instruction in which any one byte of the signature it holds was
/// altered no longer vouches for that signature; the same goes for the key
/// and for the message.
pub proof fn lemma_altered_record_refused(
    program_id: Seq<u8>,
    data: Seq<u8>,
    signature: Seq<u8>,
    verifier: Seq<u8>,
    message: Seq<u8>,
    at: int,
    byte: u8,
)
    requires
        record_vouches(program_id, data, signature, verifier, message),
        HEADER_LEN <= at < data.len(),
        byte != data[at],
        ({
            ||| le_u16(data, 2) <= at < le_u16(data, 2) + signature.len()
            ||| le_u16(data, 6) <= at < le_u16(data, 6) + verifier.len()
            ||| le_u16(data, 10) <= at < le_u16(data, 10) + message.len()
        }),
    ensures
        !record_vouches(program_id, data.update(at, byte), signature, verifier, message),
{
    let altered = data.update(at, byte);
    assert(le_u16(altered, 2) == le_u16(data, 2));
    assert(le_u16(altered, 6) == le_u16(data, 6));
    assert(le_u16(altered, 10) == le_u16(data, 10));
    if record_vouches(program_id, altered, signature, verifier, message) {
        if le_u16(data, 2) <= at < le_u16(data, 2) + signature.len() {
            let start = le_u16(data, 2);
            assert(data.subrange(start, start + signature.len())[at - start] == data[at]);
            assert(altered.subrange(start, start + signature.len())[at - start] == byte);
        } else if le_u16(data, 6) <= at < le_u16(data, 6) + verifier.len() {
            let start = le_u16(data, 6);
            assert(data.subrange(start, start + verifier.len())[at - start] == data[at]);
            assert(altered.subrange(start, start + verifier.len())[at - start] == byte);
        } else {
            let start = le_u16(data, 10);
            assert(data.subrange(start, start + message.len())[at - start] == data[at]);
            assert(altered.subrange(start, start + message.len())[at - start] == byte);
        }
    }
}

/// The address of the Ed25519 verification program, as
/// `solana_program::ed25519_program::id` gives it. The contract states its
/// 32 bytes: the program's published address, decoded from base 58.
#[verifier::external_body]
fn ed25519_program_id() -> (id: Address)
    ensures
        id.bytes@ == ed25519_program_bytes(),
{
    Address { bytes: anchor_lang::solana_program::ed25519_program::id().to_bytes() }
}

/// Reads the first instruction of the bundle from the instructions account
/// with `solana_program::sysvar::instructions::load_instruction_at_checked`,
/// at index 0.
///
/// What the reader finds depends on the account's address and data alone,
/// and the contract gives it the name `first_instruction`. Of that it states
/// one thing: an account with another address than that of the instructions
/// account yields nothing. A failure of the reader, whatever its kind, is
/// handed on as no instruction.
#[verifier::external_body]
pub(crate) fn load_first_instruction(sysvar: &InstructionsSysvar) -> (instruction: Option<VerificationRecord>)
    ensures
        parts_of(instruction) == first_instruction(sysvar.key.bytes@, sysvar.data@),
        sysvar.key.bytes@ != instructions_sysvar_bytes() ==> instruction.is_none(),
{
    let key = Pubkey::new_from_array(sysvar.key.bytes);
    let owner = Pubkey::default();
    let mut lamports = 0u64;
    let mut data = sysvar.data.clone();
    let account = AccountInfo::new(&key, false, false, &mut lamports, &mut data, &owner, false, 0);
    match load_instruction_at_checked(0, &account) {
        Ok(found) => Some(
            VerificationRecord {
                program_id: Address { bytes: found.program_id.to_bytes() },
                data: found.data,
            },
        ),
        Err(_) => None,
    }
}

/// Reads the 16-bit little-endian number at `at`.
fn read_le_u16(data: &[u8], at: usize) -> (value: usize)
    requires
        at + 1 < data@.len(),
    ensures
        value == le_u16(data@, at as int),
        value <= 0xffff,
{
    let low: usize = data[at] as usize;
    let high: usize = data[at + 1] as usize;
    low + 256 * high
}

/// Whether `data` holds exactly `expected` from `offset` on.
fn region_matches(data: &[u8], offset: usize, expected: &[u8]) -> (r: bool)
    ensures
        r == holds_at(data@, offset as int, expected@),
{
    if offset > data.len() || expected.len() > data.len() - offset {
        return false;
    }
    let mut i: usize = 0;
    while i < expected.len()
        invariant
            i <= expected@.len(),
            offset + expected@.len() <= data@.len() <= usize::MAX,
            forall|j: int| 0 <= j < i ==> data@[offset + j] == expected@[j],
        decreases expected@.len() - i,
    {
        if data[offset + i] != expected[i] {
            proof {
                let found = data@.subrange(offset as int, offset + expected@.len());
                assert(found[i as int] == data@[offset + i]);
            }
            return false;
        }
        i += 1;
    }
    proof {
        assert(data@.subrange(offset as int, offset + expected@.len()) =~= expected@);
    }
    true
}

/// Builds the message a verifier signs for `quality_score` on the
/// transaction `transaction_id`.
pub fn attestation_message(transaction_id: &str, quality_score: u8) -> (message: Vec<u8>)
    ensures
        message@ == canonical_message(transaction_id@, quality_score),
{
    let mut message: Vec<u8> = Vec::new();
    message.extend_from_slice(transaction_id.as_bytes());
    message.push(58u8);
    if quality_score >= 100 {
        message.push(48 + quality_score / 100);
    }
    if quality_score >= 10 {
        message.push(48 + (quality_score / 10) % 10);
    }
    message.push(48 + quality_score % 10);
    proof {
        assert(message@ =~= canonical_message(transaction_id@, quality_score));
    }
    message
}

/// Checks that `instruction` vouches for `signature` by `verifier_pubkey`
/// over `message`.
///
/// `instruction` is the instruction found at the first position of the
/// bundle, or `None` where none was found. Every failure is an invalid
/// signature: no instruction, one for another program, a header shorter than
/// 16 bytes, a signature count other than one, a field that reaches past the
/// end of the data, or any byte that differs.
pub fn verify_instruction(
    instruction: Option<&VerificationRecord>,
    signature: &[u8; 64],
    verifier_pubkey: &Address,
    message: &[u8],
) -> (r: Result<(), EscrowError>)
    ensures
        r.is_ok() <==> (instruction matches Some(record) && record_vouches(
            record.program_id.bytes@,
            record.data@,
            signature@,
            verifier_pubkey.bytes@,
            message@,
        )),
        r matches Err(e) ==> e == EscrowError::InvalidSignature,
{
    let record = match instruction {
        Some(record) => record,
        None => { return Err(EscrowError::InvalidSignature); },
    };
    let expected_program = ed25519_program_id();
    if !record.program_id.same(&expected_program) {
        assert(record.program_id.bytes@ != expected_program.bytes@) by {
            if record.program_id.bytes@ == expected_program.bytes@ {
                assert(record.program_id.bytes =~= expected_program.bytes);
            }
        }
        return Err(EscrowError::InvalidSignature);
    }
    let data: &[u8] = record.data.as_slice();
    if data.len() < HEADER_LEN {
        return Err(EscrowError::InvalidSignature);
    }
    if data[0] != 1 {
        return Err(EscrowError::InvalidSignature);
    }
    let signature_offset = read_le_u16(data, 2);
    let key_offset = read_le_u16(data, 6);
    let message_offset = read_le_u16(data, 10);
    let message_len = read_le_u16(data, 12);
    if !region_matches(data, signature_offset, signature.as_slice()) {
        return Err(EscrowError::InvalidSignature);
    }
    if !region_matches(data, key_offset, verifier_pubkey.bytes.as_slice()) {
        return Err(EscrowError::InvalidSignature);
    }
    if message_len != message.len() {
        return Err(EscrowError::InvalidSignature);
    }
    if !region_matches(data, message_offset, message) {
        return Err(EscrowError::InvalidSignature);
    }
    Ok(())
}

/// Checks that the first instruction of the bundle vouches for `signature`
/// by `verifier_pubkey` over `message`.
///
/// The instruction is read from the instructions account by the host's own
/// reader; where that finds none, or the account is not the instructions
/// account, the signature is invalid. The instruction found is judged as in
/// `verify_instruction`.
pub fn verify_ed25519_signature(
    instructions_sysvar: &InstructionsSysvar,
    signature: &[u8; 64],
    verifier_pubkey: &Address,
    message: &[u8],
) -> (r: Result<(), EscrowError>)
    ensures
        r.is_ok() <==> instruction_vouches(
            first_instruction(instructions_sysvar.key.bytes@, instructions_sysvar.data@),
            signature@,
            verifier_pubkey.bytes@,
            message@,
        ),
        instructions_sysvar.key.bytes@ != instructions_sysvar_bytes() ==> r.is_err(),
        r matches Err(e) ==> e == EscrowError::InvalidSignature,
{
    let instruction = load_first_instruction(instructions_sysvar);
    verify_instruction(instruction.as_ref(), signature, verifier_pubkey, message)
}

} // verus!
