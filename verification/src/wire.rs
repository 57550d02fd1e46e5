//! The instruction format: one opcode byte, then the fields of that opcode,
//! integers little-endian and texts behind a length byte.
//!
//! Every field is read only after the bytes for it are known to be there, so
//! a short instruction is refused and never read past its end. Bytes after
//! the last field are ignored.

use vstd::prelude::*;
use vstd::slice::slice_subrange;
use crate::batch::BatchEntry;
use crate::ledger::ReportPayload;
use crate::state::{Address, RiskType};
use crate::text::{lossy_text, utf8_lossy};

verus! {

/// Why an instruction cannot be decoded.
#[derive(Debug, Clone, Copy, PartialEq, Eq, Structural)]
pub enum DecodeError {
    /// The opcode is none of the twelve.
    UnknownOpcode,
    /// The bytes end before the opcode or before the end of a field.
    Truncated,
}

/// An instruction with its fields decoded.
#[derive(Debug)]
pub enum Instruction {
    ReportAddress(ReportPayload),
    UpdateReport { risk_score: u8, description: String },
    StakeOnReport { amount: u64 },
    UpdateReporterStats { new_reputation: u8 },
    StakeTokens { amount: u64, duration: i64 },
    UnstakeTokens,
    ClaimRewards,
    DistributeRewards,
    SubmitBatchReport { entries: Vec<BatchEntry> },
    VerifyBatchReport { decision: bool },
    BlacklistAddress { reason: String },
    UpdateHistory,
}

/// The fields of a report as the bytes give them, texts still undecoded.
pub struct ParsedReport {
    pub risk_score: u8,
    pub description: Seq<u8>,
    pub risk_types: Seq<RiskType>,
    pub confidence_score: u8,
    pub evidence_count: u32,
    pub transaction_volume: u64,
    pub unique_interactions: u32,
    pub age_of_account: i64,
    pub suspicious_patterns: Seq<Seq<u8>>,
}

/// An instruction as the bytes give it, texts and addresses still as bytes.
pub enum ParsedInstruction {
    ReportAddress(ParsedReport),
    UpdateReport { risk_score: u8, description: Seq<u8> },
    StakeOnReport { amount: u64 },
    UpdateReporterStats { new_reputation: u8 },
    StakeTokens { amount: u64, duration: i64 },
    UnstakeTokens,
    ClaimRewards,
    DistributeRewards,
    SubmitBatchReport { entries: Seq<(Seq<u8>, u8)> },
    VerifyBatchReport { decision: bool },
    BlacklistAddress { reason: Seq<u8> },
    UpdateHistory,
}

/// The unsigned number that the four bytes from `at` on spell, lowest first.
pub open spec fn le_u32_at(data: Seq<u8>, at: int) -> int {
    data[at] + 256 * data[at + 1] + 65536 * data[at + 2] + 16777216 * data[at + 3]
}

/// The unsigned number that the eight bytes from `at` on spell, lowest first.
pub open spec fn le_u64_at(data: Seq<u8>, at: int) -> int {
    le_u32_at(data, at) + 4294967296 * le_u32_at(data, at + 4)
}

/// The signed number that the eight bytes from `at` on spell in two's complement.
pub open spec fn le_i64_at(data: Seq<u8>, at: int) -> int {
    if le_u64_at(data, at) >= 0x8000_0000_0000_0000 {
        le_u64_at(data, at) - 0x1_0000_0000_0000_0000
    } else {
        le_u64_at(data, at)
    }
}

/// The kind of threat that an index stands for; an index beyond the table
/// stands for `Unknown`.
pub open spec fn risk_type_of(index: u8) -> RiskType {
    if index == 0 {
        RiskType::Scam
    } else if index == 1 {
        RiskType::Phishing
    } else if index == 2 {
        RiskType::Malware
    } else if index == 3 {
        RiskType::Ransomware
    } else if index == 4 {
        RiskType::MoneyLaundering
    } else if index == 5 {
        RiskType::MarketManipulation
    } else {
        RiskType::Unknown
    }
}

/// `count` texts in a row from `at` on, each behind its length byte; `None`
/// where the bytes end before the last of them does.
pub open spec fn parse_texts(data: Seq<u8>, at: int, count: nat) -> Option<Seq<Seq<u8>>>
    decreases count,
{
    if count == 0 {
        Some(Seq::empty())
    } else if at < data.len() && at + 1 + data[at] <= data.len() {
        match parse_texts(data, at + 1 + data[at], (count - 1) as nat) {
            Some(rest) => Some(seq![data.subrange(at + 1, at + 1 + data[at])] + rest),
            None => None,
        }
    } else {
        None
    }
}

/// The fields of a report in the bytes after the opcode; `None` where the
/// bytes end too early.
pub open spec fn parse_report(data: Seq<u8>) -> Option<ParsedReport> {
    if data.len() < 2 || data.len() < 3 + data[1] {
        None
    } else {
        let types_at = 2 + data[1];
        let fixed_at = types_at + 1 + data[types_at];
        if data.len() < fixed_at + 26 {
            None
        } else {
            match parse_texts(data, fixed_at + 26, data[fixed_at + 25] as nat) {
                None => None,
                Some(patterns) => Some(
                    ParsedReport {
                        risk_score: data[0],
                        description: data.subrange(2, types_at),
                        risk_types: Seq::new(
                            data[types_at] as nat,
                            |i: int| risk_type_of(data[types_at + 1 + i]),
                        ),
                        confidence_score: data[fixed_at],
                        evidence_count: le_u32_at(data, fixed_at + 1) as u32,
                        transaction_volume: le_u64_at(data, fixed_at + 5) as u64,
                        unique_interactions: le_u32_at(data, fixed_at + 13) as u32,
                        age_of_account: le_i64_at(data, fixed_at + 17) as i64,
                        suspicious_patterns: patterns,
                    },
                ),
            }
        }
    }
}

/// Whether the decoded texts are the lossy decodings of the byte strings.
pub open spec fn texts_decode(texts: Seq<String>, bytes: Seq<Seq<u8>>) -> bool {
    &&& texts.len() == bytes.len()
    &&& forall|i: int| 0 <= i < texts.len() ==> (#[trigger] texts[i])@ == utf8_lossy(bytes[i])
}

/// Whether `payload` holds the parsed fields, with each text decoded.
pub open spec fn payload_holds(payload: ReportPayload, parsed: ParsedReport) -> bool {
    &&& payload.risk_score == parsed.risk_score
    &&& payload.description@ == utf8_lossy(parsed.description)
    &&& payload.risk_types@ == parsed.risk_types
    &&& payload.confidence_score == parsed.confidence_score
    &&& payload.evidence_count == parsed.evidence_count
    &&& payload.transaction_volume == parsed.transaction_volume
    &&& payload.unique_interactions == parsed.unique_interactions
    &&& payload.age_of_account == parsed.age_of_account
    &&& texts_decode(payload.suspicious_patterns@, parsed.suspicious_patterns)
}

fn read_u32(data: &[u8], at: usize) -> (r: u32)
    requires
        at + 4 <= data@.len(),
    ensures
        r == le_u32_at(data@, at as int),
{
    data[at] as u32 + 256 * (data[at + 1] as u32) + 65536 * (data[at + 2] as u32) + 16777216 * (
    data[at + 3] as u32)
}

fn read_u64(data: &[u8], at: usize) -> (r: u64)
    requires
        at + 8 <= data@.len(),
    ensures
        r == le_u64_at(data@, at as int),
{
    let total: usize = data.len();
    assert(at + 8 <= total);
    read_u32(data, at) as u64 + 4294967296 * (read_u32(data, at + 4) as u64)
}

fn read_i64(data: &[u8], at: usize) -> (r: i64)
    requires
        at + 8 <= data@.len(),
    ensures
        r == le_i64_at(data@, at as int),
{
    let unsigned: u64 = read_u64(data, at);
    if unsigned >= 0x8000_0000_0000_0000 {
        let low: i64 = (unsigned - 0x8000_0000_0000_0000) as i64;
        low + i64::MIN
    } else {
        unsigned as i64
    }
}

/// The kind of threat that an index stands for.
pub fn risk_type_from_index(index: u8) -> (r: RiskType)
    ensures
        r == risk_type_of(index),
{
    match index {
        0 => RiskType::Scam,
        1 => RiskType::Phishing,
        2 => RiskType::Malware,
        3 => RiskType::Ransomware,
        4 => RiskType::MoneyLaundering,
        5 => RiskType::MarketManipulation,
        _ => RiskType::Unknown,
    }
}

/// What `parse_texts` gives once `done` is put in front of it.
spec fn with_front(done: Seq<Seq<u8>>, rest: Option<Seq<Seq<u8>>>) -> Option<Seq<Seq<u8>>> {
    match rest {
        Some(r) => Some(done + r),
        None => None,
    }
}

fn read_texts(data: &[u8], start: usize, count: u8) -> (r: Option<Vec<String>>)
    requires
        start <= data@.len(),
    ensures
        r is Some <==> parse_texts(data@, start as int, count as nat) is Some,
        r is Some ==> texts_decode(
            r->Some_0@,
            parse_texts(data@, start as int, count as nat)->Some_0,
        ),
{
    let mut texts: Vec<String> = Vec::new();
    let ghost mut done: Seq<Seq<u8>> = Seq::empty();
    let mut at: usize = start;
    let mut k: u8 = 0;
    assert(with_front(done, parse_texts(data@, at as int, count as nat)) == parse_texts(
        data@,
        start as int,
        count as nat,
    )) by {
        match parse_texts(data@, at as int, count as nat) {
            Some(rest) => {
                assert(done + rest =~= rest);
            },
            None => {},
        }
    }
    while k < count
        invariant
            k <= count,
            at <= data@.len(),
            texts_decode(texts@, done),
            with_front(done, parse_texts(data@, at as int, (count - k) as nat)) == parse_texts(
                data@,
                start as int,
                count as nat,
            ),
        decreases count - k,
    {
        if at >= data.len() {
            return None;
        }
        let len: usize = data[at] as usize;
        if data.len() - at - 1 < len {
            return None;
        }
        let bytes = slice_subrange(data, at + 1, at + 1 + len);
        let text: String = lossy_text(bytes);
        proof {
            let piece = data@.subrange(at + 1, at + 1 + len);
            let next = parse_texts(data@, at + 1 + len, (count - k - 1) as nat);
            assert(parse_texts(data@, at as int, (count - k) as nat) == with_front(
                seq![piece],
                next,
            ));
            match next {
                Some(rest) => {
                    assert(done + (seq![piece] + rest) =~= done.push(piece) + rest);
                },
                None => {},
            }
            done = done.push(piece);
        }
        texts.push(text);
        at = at + 1 + len;
        k = k + 1;
    }
    proof {
        assert(done + Seq::<Seq<u8>>::empty() =~= done);
    }
    Some(texts)
}

/// Decodes the fields of a report from the bytes after the opcode.
pub fn decode_report(data: &[u8]) -> (r: Result<ReportPayload, DecodeError>)
    ensures
        match r {
            Ok(payload) => parse_report(data@) is Some && payload_holds(
                payload,
                parse_report(data@)->Some_0,
            ),
            Err(e) => parse_report(data@) is None && e == DecodeError::Truncated,
        },
{
    let total: usize = data.len();
    if total < 2 {
        return Err(DecodeError::Truncated);
    }
    let risk_score: u8 = data[0];
    let types_at: usize = 2 + data[1] as usize;
    if total < types_at + 1 {
        return Err(DecodeError::Truncated);
    }
    let type_count: usize = data[types_at] as usize;
    let fixed_at: usize = types_at + 1 + type_count;
    if total < fixed_at + 26 {
        return Err(DecodeError::Truncated);
    }
    let description: String = lossy_text(slice_subrange(data, 2, types_at));
    let mut risk_types: Vec<RiskType> = Vec::new();
    let mut i: usize = 0;
    while i < type_count
        invariant
            i <= type_count,
            total == data@.len(),
            types_at + 1 + type_count <= total,
            risk_types@ == Seq::new(i as nat, |j: int| risk_type_of(data@[types_at + 1 + j])),
        decreases type_count - i,
    {
        risk_types.push(risk_type_from_index(data[types_at + 1 + i]));
        i += 1;
        assert(risk_types@ =~= Seq::new(
            i as nat,
            |j: int| risk_type_of(data@[types_at + 1 + j]),
        ));
    }
    let confidence_score: u8 = data[fixed_at];
    let evidence_count: u32 = read_u32(data, fixed_at + 1);
    let transaction_volume: u64 = read_u64(data, fixed_at + 5);
    let unique_interactions: u32 = read_u32(data, fixed_at + 13);
    let age_of_account: i64 = read_i64(data, fixed_at + 17);
    let pattern_count: u8 = data[fixed_at + 25];
    match read_texts(data, fixed_at + 26, pattern_count) {
        None => Err(DecodeError::Truncated),
        Some(suspicious_patterns) => Ok(
            ReportPayload {
                risk_score,
                description,
                risk_types,
                confidence_score,
                evidence_count,
                transaction_volume,
                unique_interactions,
                age_of_account,
                suspicious_patterns,
            },
        ),
    }
}

/// The text behind the length byte at `at`; `None` where the bytes end before it does.
pub open spec fn parse_text(data: Seq<u8>, at: int) -> Option<Seq<u8>> {
    if at < data.len() && at + 1 + data[at] <= data.len() {
        Some(data.subrange(at + 1, at + 1 + data[at]))
    } else {
        None
    }
}

fn read_text(data: &[u8], at: usize) -> (r: Option<String>)
    ensures
        r is Some <==> parse_text(data@, at as int) is Some,
        r is Some ==> r->Some_0@ == utf8_lossy(parse_text(data@, at as int)->Some_0),
{
    if at >= data.len() {
        return None;
    }
    let len: usize = data[at] as usize;
    if data.len() - at - 1 < len {
        return None;
    }
    Some(lossy_text(slice_subrange(data, at + 1, at + 1 + len)))
}

fn read_address(data: &[u8], at: usize) -> (a: Address)
    requires
        at + 32 <= data@.len(),
    ensures
        a@ == data@.subrange(at as int, at + 32),
{
    let total: usize = data.len();
    let mut bytes: [u8; 32] = [0u8;32];
    let mut k: usize = 0;
    while k < 32
        invariant
            k <= 32,
            at + 32 <= total,
            total == data@.len(),
            forall|j: int| 0 <= j < k ==> bytes@[j] == data@[at + j],
        decreases 32 - k,
    {
        bytes[k] = data[at + k];
        k += 1;
    }
    assert(bytes@ =~= data@.subrange(at as int, at + 32));
    Address::new_from_array(bytes)
}

/// The `count` entries of a batch that follow its count byte: for each, the
/// 32 bytes of an address and then a score.
pub open spec fn parse_entries(data: Seq<u8>, count: nat) -> Seq<(Seq<u8>, u8)> {
    Seq::new(count, |i: int| (data.subrange(1 + 33 * i, 33 + 33 * i), data[33 + 33 * i]))
}

/// Whether the decoded entries hold the parsed addresses and scores in order.
pub open spec fn entries_hold(entries: Seq<BatchEntry>, parsed: Seq<(Seq<u8>, u8)>) -> bool {
    &&& entries.len() == parsed.len()
    &&& forall|i: int|
        0 <= i < entries.len() ==> (#[trigger] entries[i]).address@ == parsed[i].0 && entries[i].risk_score
            == parsed[i].1
}

fn read_entries(data: &[u8]) -> (r: Option<Vec<BatchEntry>>)
    ensures
        r is Some <==> data@.len() >= 1 && data@.len() >= 1 + 33 * data@[0],
        r is Some ==> entries_hold(r->Some_0@, parse_entries(data@, data@[0] as nat)),
{
    let total: usize = data.len();
    if total < 1 {
        return None;
    }
    let count: usize = data[0] as usize;
    if total < 1 + 33 * count {
        return None;
    }
    let mut entries: Vec<BatchEntry> = Vec::new();
    let mut i: usize = 0;
    while i < count
        invariant
            i <= count,
            count == data@[0],
            total == data@.len(),
            total >= 1 + 33 * count,
            entries@.len() == i,
            forall|j: int|
                0 <= j < i ==> (#[trigger] entries@[j]).address@ == parse_entries(
                    data@,
                    count as nat,
                )[j].0 && entries@[j].risk_score == parse_entries(data@, count as nat)[j].1,
        decreases count - i,
    {
        let address: Address = read_address(data, 1 + 33 * i);
        let risk_score: u8 = data[33 + 33 * i];
        entries.push(BatchEntry { address, risk_score });
        i += 1;
    }
    Some(entries)
}

/// The instruction that the bytes spell, or why they spell none.
pub open spec fn parse_instruction(data: Seq<u8>) -> Result<ParsedInstruction, DecodeError> {
    if data.len() == 0 {
        Err(DecodeError::Truncated)
    } else {
        let body = data.subrange(1, data.len() as int);
        let opcode = data[0];
        if opcode == 0 {
            match parse_report(body) {
                Some(report) => Ok(ParsedInstruction::ReportAddress(report)),
                None => Err(DecodeError::Truncated),
            }
        } else if opcode == 1 {
            match parse_text(body, 1) {
                Some(description) => Ok(
                    ParsedInstruction::UpdateReport { risk_score: body[0], description },
                ),
                None => Err(DecodeError::Truncated),
            }
        } else if opcode == 2 {
            if body.len() >= 8 {
                Ok(ParsedInstruction::StakeOnReport { amount: le_u64_at(body, 0) as u64 })
            } else {
                Err(DecodeError::Truncated)
            }
        } else if opcode == 3 {
            if body.len() >= 1 {
                Ok(ParsedInstruction::UpdateReporterStats { new_reputation: body[0] })
            } else {
                Err(DecodeError::Truncated)
            }
        } else if opcode == 4 {
            if body.len() >= 16 {
                Ok(
                    ParsedInstruction::StakeTokens {
                        amount: le_u64_at(body, 0) as u64,
                        duration: le_i64_at(body, 8) as i64,
                    },
                )
            } else {
                Err(DecodeError::Truncated)
            }
        } else if opcode == 5 {
            Ok(ParsedInstruction::UnstakeTokens)
        } else if opcode == 6 {
            Ok(ParsedInstruction::ClaimRewards)
        } else if opcode == 7 {
            Ok(ParsedInstruction::DistributeRewards)
        } else if opcode == 8 {
            if body.len() >= 1 && body.len() >= 1 + 33 * body[0] {
                Ok(
                    ParsedInstruction::SubmitBatchReport {
                        entries: parse_entries(body, body[0] as nat),
                    },
                )
            } else {
                Err(DecodeError::Truncated)
            }
        } else if opcode == 9 {
            if body.len() >= 1 {
                Ok(ParsedInstruction::VerifyBatchReport { decision: body[0] != 0 })
            } else {
                Err(DecodeError::Truncated)
            }
        } else if opcode == 10 {
            match parse_text(body, 0) {
                Some(reason) => Ok(ParsedInstruction::BlacklistAddress { reason }),
                None => Err(DecodeError::Truncated),
            }
        } else if opcode == 11 {
            Ok(ParsedInstruction::UpdateHistory)
        } else {
            Err(DecodeError::UnknownOpcode)
        }
    }
}

impl Instruction {
    /// Whether this instruction holds what was parsed, with each text
    /// decoded and each address made of its bytes.
    pub open spec fn holds(self, parsed: ParsedInstruction) -> bool {
        match (self, parsed) {
            (Instruction::ReportAddress(payload), ParsedInstruction::ReportAddress(report)) => {
                payload_holds(payload, report)
            },
            (
                Instruction::UpdateReport { risk_score, description },
                ParsedInstruction::UpdateReport { risk_score: score, description: bytes },
            ) => risk_score == score && description@ == utf8_lossy(bytes),
            (
                Instruction::StakeOnReport { amount },
                ParsedInstruction::StakeOnReport { amount: parsed_amount },
            ) => amount == parsed_amount,
            (
                Instruction::UpdateReporterStats { new_reputation },
                ParsedInstruction::UpdateReporterStats { new_reputation: reputation },
            ) => new_reputation == reputation,
            (
                Instruction::StakeTokens { amount, duration },
                ParsedInstruction::StakeTokens { amount: parsed_amount, duration: parsed_duration },
            ) => amount == parsed_amount && duration == parsed_duration,
            (Instruction::UnstakeTokens, ParsedInstruction::UnstakeTokens) => true,
            (Instruction::ClaimRewards, ParsedInstruction::ClaimRewards) => true,
            (Instruction::DistributeRewards, ParsedInstruction::DistributeRewards) => true,
            (
                Instruction::SubmitBatchReport { entries },
                ParsedInstruction::SubmitBatchReport { entries: parsed_entries },
            ) => entries_hold(entries@, parsed_entries),
            (
                Instruction::VerifyBatchReport { decision },
                ParsedInstruction::VerifyBatchReport { decision: parsed_decision },
            ) => decision == parsed_decision,
            (
                Instruction::BlacklistAddress { reason },
                ParsedInstruction::BlacklistAddress { reason: bytes },
            ) => reason@ == utf8_lossy(bytes),
            (Instruction::UpdateHistory, ParsedInstruction::UpdateHistory) => true,
            _ => false,
        }
    }
}

/// Decodes an instruction: the opcode, then the fields that it calls for.
pub fn decode_instruction(data: &[u8]) -> (r: Result<Instruction, DecodeError>)
    ensures
        match r {
            Ok(instruction) => parse_instruction(data@) is Ok && instruction.holds(
                parse_instruction(data@)->Ok_0,
            ),
            Err(e) => parse_instruction(data@) == Err::<ParsedInstruction, DecodeError>(e),
        },
{
    let total: usize = data.len();
    if total == 0 {
        return Err(DecodeError::Truncated);
    }
    let opcode: u8 = data[0];
    let body = slice_subrange(data, 1, total);
    match opcode {
        0 => match decode_report(body) {
            Ok(payload) => Ok(Instruction::ReportAddress(payload)),
            Err(e) => Err(e),
        },
        1 => match read_text(body, 1) {
            Some(description) => Ok(Instruction::UpdateReport { risk_score: body[0], description }),
            None => Err(DecodeError::Truncated),
        },
        2 => if body.len() >= 8 {
            Ok(Instruction::StakeOnReport { amount: read_u64(body, 0) })
        } else {
            Err(DecodeError::Truncated)
        },
        3 => if body.len() >= 1 {
            Ok(Instruction::UpdateReporterStats { new_reputation: body[0] })
        } else {
            Err(DecodeError::Truncated)
        },
        4 => if body.len() >= 16 {
            Ok(Instruction::StakeTokens { amount: read_u64(body, 0), duration: read_i64(body, 8) })
        } else {
            Err(DecodeError::Truncated)
        },
        5 => Ok(Instruction::UnstakeTokens),
        6 => Ok(Instruction::ClaimRewards),
        7 => Ok(Instruction::DistributeRewards),
        8 => match read_entries(body) {
            Some(entries) => Ok(Instruction::SubmitBatchReport { entries }),
            None => Err(DecodeError::Truncated),
        },
        9 => if body.len() >= 1 {
            Ok(Instruction::VerifyBatchReport { decision: body[0] != 0 })
        } else {
            Err(DecodeError::Truncated)
        },
        10 => match read_text(body, 0) {
            Some(reason) => Ok(Instruction::BlacklistAddress { reason }),
            None => Err(DecodeError::Truncated),
        },
        11 => Ok(Instruction::UpdateHistory),
        _ => Err(DecodeError::UnknownOpcode),
    }
}

} // verus!
