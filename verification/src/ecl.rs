//! Record and sequence decoding, header resolution, and the top-level
//! assembler.
//!
//! A buffer holds a header, a fixed 3-slot array of Main offsets, a
//! `sub_count`-slot array of Sub offsets, and at each offset a sentinel-ended
//! sequence of records. Every decode path either returns a typed value or a
//! typed error; nothing panics on malformed input.

use vstd::prelude::*;

use crate::bytes::{le_i32_at, le_u16_at, le_u32_at, read_i32_at, read_u16_at, read_u32_at};
use crate::error::EclError;
use crate::main_instructions::{
    main_args_match, main_args_size, parse_main_instruction_args, MainInstruction,
};
use crate::rank::{spec_valid_rank_bits, Rank};
use crate::sub_instructions::{
    parse_sub_instruction_args, sub_args_match, sub_args_size, SubInstruction,
};

verus! {

/// A single instruction call of a Sub (per-enemy behaviour) sequence.
#[derive(Debug, Clone)]
pub struct CallSub {
    /// Frame offset at which this instruction will be called.
    pub time: i32,
    /// The difficulty level(s) this instruction will be called at.
    pub rank_mask: Rank,
    /// Reserved 16-bit field, preserved verbatim by the decoder.
    pub param_mask: u16,
    /// The instruction to call.
    pub instr: SubInstruction,
}

impl CallSub {
    /// Create a new instruction call with an empty `param_mask`.
    pub fn new(time: i32, rank_mask: Rank, instr: SubInstruction) -> (r: CallSub)
        ensures
            r.time == time,
            r.rank_mask == rank_mask,
            r.param_mask == 0,
            r.instr == instr,
    {
        CallSub { time, rank_mask, param_mask: 0, instr }
    }
}

/// One enemy's full behaviour timeline, in execution order.
#[derive(Debug, Clone)]
pub struct Sub {
    /// List of instructions in this script.
    pub instructions: Vec<CallSub>,
}

/// A single instruction call of the Main (top-level scheduling) sequence.
#[derive(Debug, Clone)]
pub struct CallMain {
    /// Frame at which this instruction will be called.
    pub time: u16,
    /// Subroutine index for this enemy, referencing a `Sub` by position.
    pub sub: u16,
    /// The instruction to call.
    pub instr: MainInstruction,
}

/// The top-level spawn schedule, in execution order.
#[derive(Debug, Clone)]
pub struct Main {
    /// List of instructions in this script.
    pub instructions: Vec<CallMain>,
}

/// A fully decoded script: the Sub scripts and the Main schedules of one
/// buffer.
#[derive(Debug, Clone)]
pub struct Ecl {
    /// A list of subs.
    pub subs: Vec<Sub>,
    /// A list of mains.
    pub mains: Vec<Main>,
}

// ---------------------------------------------------------------------------
// Sub records
// ---------------------------------------------------------------------------

/// The 6 bytes at `p` are the Sub-sequence sentinel: `time == -1` and
/// `opcode == 0xffff`.
pub open spec fn spec_sub_sentinel(b: Seq<u8>, p: int) -> bool {
    &&& p + 6 <= b.len()
    &&& le_i32_at(b, p) == -1
    &&& le_u16_at(b, p + 4) == 0xffff
}

/// `c` is exactly the Sub record encoded at `p`, ending at `q`: header fields
/// read little-endian, a legal rank mask, the argument tuple of the record's
/// opcode, and a `size` field equal to the bytes consumed.
pub open spec fn sub_record_at(b: Seq<u8>, p: int, q: int, c: CallSub) -> bool {
    let op = le_u16_at(b, p + 4);
    &&& !spec_sub_sentinel(b, p)
    &&& p + 12 <= b.len()
    &&& c.time == le_i32_at(b, p)
    &&& spec_valid_rank_bits(le_u16_at(b, p + 8))
    &&& c.rank_mask.bits == le_u16_at(b, p + 8)
    &&& c.param_mask == le_u16_at(b, p + 10)
    &&& sub_args_size(op) >= 0
    &&& sub_args_match(b, p + 12, op, c.instr)
    &&& q == p + 12 + sub_args_size(op)
    &&& q <= b.len()
    &&& le_u16_at(b, p + 6) == q - p
}

/// A (non-sentinel) Sub record decodes successfully at `p`: enough bytes, a
/// legal rank mask, a known opcode, and a `size` field that equals the bytes
/// the record occupies.
pub open spec fn spec_sub_record_ok(b: Seq<u8>, p: int) -> bool {
    let op = le_u16_at(b, p + 4);
    &&& !spec_sub_sentinel(b, p)
    &&& p + 12 <= b.len()
    &&& spec_valid_rank_bits(le_u16_at(b, p + 8))
    &&& sub_args_size(op) >= 0
    &&& p + 12 + sub_args_size(op) <= b.len()
    &&& le_u16_at(b, p + 6) == 12 + sub_args_size(op)
}

/// The first error met when decoding a Sub record at `p`, in read order.
/// Only meaningful where the record is neither a sentinel nor well-formed.
pub open spec fn spec_sub_record_err(b: Seq<u8>, p: int) -> EclError {
    let op = le_u16_at(b, p + 4);
    if p + 6 > b.len() {
        EclError::Truncated
    } else if p + 12 > b.len() {
        EclError::Truncated
    } else if !spec_valid_rank_bits(le_u16_at(b, p + 8)) {
        EclError::InvalidRankBits(le_u16_at(b, p + 8))
    } else if sub_args_size(op) < 0 {
        EclError::UnknownOpcode(op)
    } else if p + 12 + sub_args_size(op) > b.len() {
        EclError::Truncated
    } else {
        EclError::SizeMismatch(le_u16_at(b, p + 6), (12 + sub_args_size(op)) as u16)
    }
}

/// Decode one Sub record at `pos`. `Ok(None)` is the sentinel; `Ok(Some)`
/// carries the record and the cursor position just past it.
pub fn parse_sub_instruction(data: &[u8], pos: usize) -> (r: Result<
    Option<(CallSub, usize)>,
    EclError,
>)
    ensures
        (r matches Ok(None)) == spec_sub_sentinel(data@, pos as int),
        (r matches Ok(Some(_))) == spec_sub_record_ok(data@, pos as int),
        r matches Ok(Some(cq)) ==> (sub_record_at(data@, pos as int, cq.1 as int, cq.0)
            && pos < cq.1 <= data@.len()),
        r matches Err(e) ==> e == spec_sub_record_err(data@, pos as int),
{
    if data.len() < pos || data.len() - pos < 6 {
        return Err(EclError::Truncated);
    }
    let time = read_i32_at(data, pos);
    let opcode = read_u16_at(data, pos + 4);
    if time == -1 && opcode == 0xffff {
        return Ok(None);
    }
    if data.len() - pos < 12 {
        return Err(EclError::Truncated);
    }
    let size = read_u16_at(data, pos + 6);
    let rank_raw = read_u16_at(data, pos + 8);
    let param_mask = read_u16_at(data, pos + 10);
    let rank_mask = match Rank::from_bits(rank_raw) {
        Ok(k) => k,
        Err(e) => return Err(e),
    };
    let (instr, end) = match parse_sub_instruction_args(data, pos + 12, opcode) {
        Ok(iq) => iq,
        Err(e) => return Err(e),
    };
    let consumed = end - pos;
    if size as usize != consumed {
        return Err(EclError::SizeMismatch(size, consumed as u16));
    }
    Ok(Some((CallSub { time, rank_mask, param_mask, instr }, end)))
}

// ---------------------------------------------------------------------------
// Sub sequences
// ---------------------------------------------------------------------------

/// `calls` is exactly the chain of Sub records from `p` to `q`: empty when
/// `q == p`, else the first record ends where the rest begin.
pub open spec fn sub_seq_prefix(b: Seq<u8>, p: int, q: int, calls: Seq<CallSub>) -> bool
    decreases calls.len(),
{
    if calls.len() == 0 {
        q == p
    } else {
        exists|m: int|
            #[trigger] sub_record_at(b, p, m, calls[0]) && sub_seq_prefix(
                b,
                m,
                q,
                calls.drop_first(),
            )
    }
}

/// `calls` is exactly the Sub sequence decoded from `p`: a chain of records
/// ending at `q`, where the sentinel stands. The sentinel is not part of the
/// sequence, and nothing past it is read.
pub open spec fn sub_seq_at(b: Seq<u8>, p: int, q: int, calls: Seq<CallSub>) -> bool {
    sub_seq_prefix(b, p, q, calls) && spec_sub_sentinel(b, q)
}

/// A record appended to a record chain extends the chain to the record's end.
proof fn lemma_sub_seq_prefix_push(
    b: Seq<u8>,
    p: int,
    q: int,
    m: int,
    calls: Seq<CallSub>,
    c: CallSub,
)
    requires
        sub_seq_prefix(b, p, q, calls),
        sub_record_at(b, q, m, c),
    ensures
        sub_seq_prefix(b, p, m, calls.push(c)),
    decreases calls.len(),
{
    if calls.len() == 0 {
        assert(calls.push(c)[0] == c);
        assert(calls.push(c).drop_first() =~= Seq::<CallSub>::empty());
        assert(sub_record_at(b, p, m, calls.push(c)[0]));
        assert(sub_seq_prefix(b, m, m, calls.push(c).drop_first()));
    } else {
        let m0 = choose|m0: int|
            #[trigger] sub_record_at(b, p, m0, calls[0]) && sub_seq_prefix(
                b,
                m0,
                q,
                calls.drop_first(),
            );
        lemma_sub_seq_prefix_push(b, m0, q, m, calls.drop_first(), c);
        assert(calls.push(c)[0] == calls[0]);
        assert(calls.push(c).drop_first() =~= calls.drop_first().push(c));
        assert(sub_record_at(b, p, m0, calls.push(c)[0]));
        assert(sub_seq_prefix(b, m0, m, calls.push(c).drop_first()));
    }
}

/// Where the Sub sequence starting at `p` ends (the sentinel position), or
/// the first error met while decoding it.
pub open spec fn spec_sub_run(b: Seq<u8>, p: int) -> Result<int, EclError>
    decreases b.len() - p,
        when 0 <= p
{
    if spec_sub_sentinel(b, p) {
        Ok(p)
    } else if spec_sub_record_ok(b, p) {
        spec_sub_run(b, p + 12 + sub_args_size(le_u16_at(b, p + 4)))
    } else {
        Err(spec_sub_record_err(b, p))
    }
}

/// Decode the Sub sequence starting at `offset`, consuming records until the
/// sentinel.
pub fn parse_sub(data: &[u8], offset: usize) -> (r: Result<Sub, EclError>)
    ensures
        (r matches Ok(_)) == (spec_sub_run(data@, offset as int) matches Ok(_)),
        r matches Ok(s) ==> (spec_sub_run(data@, offset as int) matches Ok(q) && sub_seq_at(
            data@,
            offset as int,
            q,
            s.instructions@,
        )),
        r matches Err(e) ==> spec_sub_run(data@, offset as int) == Err::<int, EclError>(e),
{
    let mut instructions: Vec<CallSub> = Vec::new();
    let mut pos = offset;
    loop
        invariant
            offset <= pos,
            sub_seq_prefix(data@, offset as int, pos as int, instructions@),
            spec_sub_run(data@, offset as int) == spec_sub_run(data@, pos as int),
        decreases data@.len() + 1 - pos,
    {
        match parse_sub_instruction(data, pos) {
            Ok(None) => {
                return Ok(Sub { instructions });
            },
            Ok(Some((call, next))) => {
                proof {
                    lemma_sub_seq_prefix_push(
                        data@,
                        offset as int,
                        pos as int,
                        next as int,
                        instructions@,
                        call,
                    );
                }
                instructions.push(call);
                pos = next;
            },
            Err(e) => {
                return Err(e);
            },
        }
    }
}

// ---------------------------------------------------------------------------
// Main records
// ---------------------------------------------------------------------------

/// The 4 bytes at `p` are the Main-sequence sentinel: `time == 0xffff` and
/// `sub == 4`.
pub open spec fn spec_main_sentinel(b: Seq<u8>, p: int) -> bool {
    &&& p + 4 <= b.len()
    &&& le_u16_at(b, p) == 0xffff
    &&& le_u16_at(b, p + 2) == 4
}

/// `c` is exactly the Main record encoded at `p`, ending at `q`.
pub open spec fn main_record_at(b: Seq<u8>, p: int, q: int, c: CallMain) -> bool {
    let op = le_u16_at(b, p + 4);
    &&& !spec_main_sentinel(b, p)
    &&& p + 8 <= b.len()
    &&& c.time == le_u16_at(b, p)
    &&& c.sub == le_u16_at(b, p + 2)
    &&& main_args_size(op) >= 0
    &&& main_args_match(b, p + 8, op, c.instr)
    &&& q == p + 8 + main_args_size(op)
    &&& q <= b.len()
    &&& le_u16_at(b, p + 6) == q - p
}

/// A (non-sentinel) Main record decodes successfully at `p`.
pub open spec fn spec_main_record_ok(b: Seq<u8>, p: int) -> bool {
    let op = le_u16_at(b, p + 4);
    &&& !spec_main_sentinel(b, p)
    &&& p + 8 <= b.len()
    &&& main_args_size(op) >= 0
    &&& p + 8 + main_args_size(op) <= b.len()
    &&& le_u16_at(b, p + 6) == 8 + main_args_size(op)
}

/// The first error met when decoding a Main record at `p`, in read order.
/// Only meaningful where the record is neither a sentinel nor well-formed.
pub open spec fn spec_main_record_err(b: Seq<u8>, p: int) -> EclError {
    let op = le_u16_at(b, p + 4);
    if p + 4 > b.len() {
        EclError::Truncated
    } else if p + 8 > b.len() {
        EclError::Truncated
    } else if main_args_size(op) < 0 {
        EclError::UnknownOpcode(op)
    } else if p + 8 + main_args_size(op) > b.len() {
        EclError::Truncated
    } else {
        EclError::SizeMismatch(le_u16_at(b, p + 6), (8 + main_args_size(op)) as u16)
    }
}

/// Decode one Main record at `pos`. `Ok(None)` is the sentinel; `Ok(Some)`
/// carries the record and the cursor position just past it.
pub fn parse_main_instruction(data: &[u8], pos: usize) -> (r: Result<
    Option<(CallMain, usize)>,
    EclError,
>)
    ensures
        (r matches Ok(None)) == spec_main_sentinel(data@, pos as int),
        (r matches Ok(Some(_))) == spec_main_record_ok(data@, pos as int),
        r matches Ok(Some(cq)) ==> (main_record_at(data@, pos as int, cq.1 as int, cq.0)
            && pos < cq.1 <= data@.len()),
        r matches Err(e) ==> e == spec_main_record_err(data@, pos as int),
{
    if data.len() < pos || data.len() - pos < 4 {
        return Err(EclError::Truncated);
    }
    let time = read_u16_at(data, pos);
    let sub = read_u16_at(data, pos + 2);
    if time == 0xffff && sub == 4 {
        return Ok(None);
    }
    if data.len() - pos < 8 {
        return Err(EclError::Truncated);
    }
    let opcode = read_u16_at(data, pos + 4);
    let size = read_u16_at(data, pos + 6);
    let (instr, end) = match parse_main_instruction_args(data, pos + 8, opcode) {
        Ok(iq) => iq,
        Err(e) => return Err(e),
    };
    let consumed = end - pos;
    if size as usize != consumed {
        return Err(EclError::SizeMismatch(size, consumed as u16));
    }
    Ok(Some((CallMain { time, sub, instr }, end)))
}

// ---------------------------------------------------------------------------
// Main sequences
// ---------------------------------------------------------------------------

/// `calls` is exactly the chain of Main records from `p` to `q`.
pub open spec fn main_seq_prefix(b: Seq<u8>, p: int, q: int, calls: Seq<CallMain>) -> bool
    decreases calls.len(),
{
    if calls.len() == 0 {
        q == p
    } else {
        exists|m: int|
            #[trigger] main_record_at(b, p, m, calls[0]) && main_seq_prefix(
                b,
                m,
                q,
                calls.drop_first(),
            )
    }
}

/// `calls` is exactly the Main sequence decoded from `p`: a chain of records
/// ending at `q`, where the sentinel stands. The sentinel is not part of the
/// sequence, and nothing past it is read.
pub open spec fn main_seq_at(b: Seq<u8>, p: int, q: int, calls: Seq<CallMain>) -> bool {
    main_seq_prefix(b, p, q, calls) && spec_main_sentinel(b, q)
}

/// A record appended to a record chain extends the chain to the record's end.
proof fn lemma_main_seq_prefix_push(
    b: Seq<u8>,
    p: int,
    q: int,
    m: int,
    calls: Seq<CallMain>,
    c: CallMain,
)
    requires
        main_seq_prefix(b, p, q, calls),
        main_record_at(b, q, m, c),
    ensures
        main_seq_prefix(b, p, m, calls.push(c)),
    decreases calls.len(),
{
    if calls.len() == 0 {
        assert(calls.push(c)[0] == c);
        assert(calls.push(c).drop_first() =~= Seq::<CallMain>::empty());
        assert(main_record_at(b, p, m, calls.push(c)[0]));
        assert(main_seq_prefix(b, m, m, calls.push(c).drop_first()));
    } else {
        let m0 = choose|m0: int|
            #[trigger] main_record_at(b, p, m0, calls[0]) && main_seq_prefix(
                b,
                m0,
                q,
                calls.drop_first(),
            );
        lemma_main_seq_prefix_push(b, m0, q, m, calls.drop_first(), c);
        assert(calls.push(c)[0] == calls[0]);
        assert(calls.push(c).drop_first() =~= calls.drop_first().push(c));
        assert(main_record_at(b, p, m0, calls.push(c)[0]));
        assert(main_seq_prefix(b, m0, m, calls.push(c).drop_first()));
    }
}

/// Where the Main sequence starting at `p` ends (the sentinel position), or
/// the first error met while decoding it.
pub open spec fn spec_main_run(b: Seq<u8>, p: int) -> Result<int, EclError>
    decreases b.len() - p,
        when 0 <= p
{
    if spec_main_sentinel(b, p) {
        Ok(p)
    } else if spec_main_record_ok(b, p) {
        spec_main_run(b, p + 8 + main_args_size(le_u16_at(b, p + 4)))
    } else {
        Err(spec_main_record_err(b, p))
    }
}

/// Decode the Main sequence starting at `offset`, consuming records until
/// the sentinel.
pub fn parse_main(data: &[u8], offset: usize) -> (r: Result<Main, EclError>)
    ensures
        (r matches Ok(_)) == (spec_main_run(data@, offset as int) matches Ok(_)),
        r matches Ok(s) ==> (spec_main_run(data@, offset as int) matches Ok(q) && main_seq_at(
            data@,
            offset as int,
            q,
            s.instructions@,
        )),
        r matches Err(e) ==> spec_main_run(data@, offset as int) == Err::<int, EclError>(e),
{
    let mut instructions: Vec<CallMain> = Vec::new();
    let mut pos = offset;
    loop
        invariant
            offset <= pos,
            main_seq_prefix(data@, offset as int, pos as int, instructions@),
            spec_main_run(data@, offset as int) == spec_main_run(data@, pos as int),
        decreases data@.len() + 1 - pos,
    {
        match parse_main_instruction(data, pos) {
            Ok(None) => {
                return Ok(Main { instructions });
            },
            Ok(Some((call, next))) => {
                proof {
                    lemma_main_seq_prefix_push(
                        data@,
                        offset as int,
                        pos as int,
                        next as int,
                        instructions@,
                        call,
                    );
                }
                instructions.push(call);
                pos = next;
            },
            Err(e) => {
                return Err(e);
            },
        }
    }
}

// ---------------------------------------------------------------------------
// Laws
// ---------------------------------------------------------------------------

/// Law: a decoded Sub record occupies exactly the byte count its declared
/// `size` field holds.
pub proof fn lemma_sub_record_consumed_equals_size(b: Seq<u8>, p: int, q: int, c: CallSub)
    requires
        sub_record_at(b, p, q, c),
    ensures
        q - p == le_u16_at(b, p + 6),
{
}

/// Law: a decoded Main record occupies exactly the byte count its declared
/// `size` field holds.
pub proof fn lemma_main_record_consumed_equals_size(b: Seq<u8>, p: int, q: int, c: CallMain)
    requires
        main_record_at(b, p, q, c),
    ensures
        q - p == le_u16_at(b, p + 6),
{
}

/// Every record chain only moves the cursor forward: each record takes at
/// least its 12-byte header.
pub proof fn lemma_sub_seq_prefix_bounds(b: Seq<u8>, p: int, q: int, calls: Seq<CallSub>)
    requires
        sub_seq_prefix(b, p, q, calls),
    ensures
        p <= q,
        calls.len() > 0 ==> p + 12 <= q,
    decreases calls.len(),
{
    if calls.len() > 0 {
        let m = choose|m: int|
            #[trigger] sub_record_at(b, p, m, calls[0]) && sub_seq_prefix(
                b,
                m,
                q,
                calls.drop_first(),
            );
        lemma_sub_seq_prefix_bounds(b, m, q, calls.drop_first());
    }
}

/// Law: Sub sentinel detection is exact. A decoded sequence ends at a
/// sentinel record, no decoded record is the sentinel, and every record
/// starts before the sentinel position.
pub proof fn lemma_sub_seq_stops_at_sentinel(b: Seq<u8>, p: int, q: int, calls: Seq<CallSub>)
    requires
        sub_seq_at(b, p, q, calls),
    ensures
        spec_sub_sentinel(b, q),
        p <= q,
        calls.len() > 0 ==> p < q,
{
    lemma_sub_seq_prefix_bounds(b, p, q, calls);
}

/// Every Main record chain only moves the cursor forward: each record takes
/// at least its 8-byte header.
pub proof fn lemma_main_seq_prefix_bounds(b: Seq<u8>, p: int, q: int, calls: Seq<CallMain>)
    requires
        main_seq_prefix(b, p, q, calls),
    ensures
        p <= q,
        calls.len() > 0 ==> p + 8 <= q,
    decreases calls.len(),
{
    if calls.len() > 0 {
        let m = choose|m: int|
            #[trigger] main_record_at(b, p, m, calls[0]) && main_seq_prefix(
                b,
                m,
                q,
                calls.drop_first(),
            );
        lemma_main_seq_prefix_bounds(b, m, q, calls.drop_first());
    }
}

/// Law: Main sentinel detection is exact. A decoded sequence ends at a
/// sentinel record, no decoded record is the sentinel, and every record
/// starts before the sentinel position.
pub proof fn lemma_main_seq_stops_at_sentinel(b: Seq<u8>, p: int, q: int, calls: Seq<CallMain>)
    requires
        main_seq_at(b, p, q, calls),
    ensures
        spec_main_sentinel(b, q),
        p <= q,
        calls.len() > 0 ==> p < q,
{
    lemma_main_seq_prefix_bounds(b, p, q, calls);
}

// ---------------------------------------------------------------------------
// Header, offsets, and the top-level assembler
// ---------------------------------------------------------------------------

/// The header's `sub_count` field.
pub open spec fn spec_sub_count(b: Seq<u8>) -> int {
    le_u16_at(b, 0) as int
}

/// The header's `main_count` field; this engine version requires it to be 0.
pub open spec fn spec_main_count(b: Seq<u8>) -> int {
    le_u16_at(b, 2) as int
}

/// Bytes occupied by the header and both offset arrays.
pub open spec fn spec_header_len(b: Seq<u8>) -> int {
    16 + 4 * spec_sub_count(b)
}

/// The `i`-th entry of the fixed 3-slot Main offset array.
pub open spec fn spec_main_offset(b: Seq<u8>, i: int) -> int {
    le_u32_at(b, 4 + 4 * i) as int
}

/// The `i`-th entry of the Sub offset array.
pub open spec fn spec_sub_offset(b: Seq<u8>, i: int) -> int {
    le_u32_at(b, 16 + 4 * i) as int
}

/// How many Main offsets are decoded: those before the first zero offset.
pub open spec fn spec_main_prefix_count(b: Seq<u8>) -> int {
    if spec_main_offset(b, 0) == 0 {
        0
    } else if spec_main_offset(b, 1) == 0 {
        1
    } else if spec_main_offset(b, 2) == 0 {
        2
    } else {
        3
    }
}

/// `s` is the Sub script decoded from offset `p` of the buffer.
pub open spec fn sub_script_at(b: Seq<u8>, p: int, s: Sub) -> bool {
    exists|q: int| #[trigger] sub_seq_at(b, p, q, s.instructions@)
}

/// `s` is the Main script decoded from offset `p` of the buffer.
pub open spec fn main_script_at(b: Seq<u8>, p: int, s: Main) -> bool {
    exists|q: int| #[trigger] main_seq_at(b, p, q, s.instructions@)
}

/// Outcome of decoding the Sub scripts from index `i` up: `Ok` when each one
/// decodes, else the first error.
pub open spec fn spec_subs_run(b: Seq<u8>, i: int) -> Result<(), EclError>
    decreases spec_sub_count(b) - i,
{
    if i >= spec_sub_count(b) {
        Ok(())
    } else {
        match spec_sub_run(b, spec_sub_offset(b, i)) {
            Ok(_) => spec_subs_run(b, i + 1),
            Err(e) => Err(e),
        }
    }
}

/// Outcome of decoding the Main scripts from index `j` up to the first zero
/// offset: `Ok` when each one decodes, else the first error.
pub open spec fn spec_mains_run(b: Seq<u8>, j: int) -> Result<(), EclError>
    decreases spec_main_prefix_count(b) - j,
{
    if j >= spec_main_prefix_count(b) {
        Ok(())
    } else {
        match spec_main_run(b, spec_main_offset(b, j)) {
            Ok(_) => spec_mains_run(b, j + 1),
            Err(e) => Err(e),
        }
    }
}

/// Outcome of decoding a whole buffer: `Ok` exactly on well-formed buffers,
/// else the first error in read order.
pub open spec fn spec_ecl_outcome(b: Seq<u8>) -> Result<(), EclError> {
    if b.len() < 4 {
        Err(EclError::Truncated)
    } else if spec_main_count(b) != 0 {
        Err(EclError::UnsupportedFeature)
    } else if spec_header_len(b) > b.len() {
        Err(EclError::Truncated)
    } else {
        match spec_subs_run(b, 0) {
            Ok(_) => spec_mains_run(b, 0),
            Err(e) => Err(e),
        }
    }
}

/// Decode a whole buffer: resolve the header and both offset arrays, then
/// decode one Sub sequence per offset and the Main sequences up to the first
/// zero offset.
#[verifier::rlimit(100)]
pub fn parse_ecl(data: &[u8]) -> (r: Result<Ecl, EclError>)
    ensures
        (r matches Ok(_)) == (spec_ecl_outcome(data@) matches Ok(_)),
        r matches Ok(e) ==> e.subs@.len() == spec_sub_count(data@),
        r matches Ok(e) ==> e.mains@.len() == spec_main_prefix_count(data@),
        r matches Ok(e) ==> forall|i: int|
            0 <= i < e.subs@.len() ==> sub_script_at(
                data@,
                spec_sub_offset(data@, i),
                #[trigger] e.subs@[i],
            ),
        r matches Ok(e) ==> forall|j: int|
            0 <= j < e.mains@.len() ==> main_script_at(
                data@,
                spec_main_offset(data@, j),
                #[trigger] e.mains@[j],
            ),
        r matches Err(e) ==> spec_ecl_outcome(data@) == Err::<(), EclError>(e),
{
    if data.len() < 4 {
        return Err(EclError::Truncated);
    }
    let sub_count = read_u16_at(data, 0);
    let main_count = read_u16_at(data, 2);
    if main_count != 0 {
        return Err(EclError::UnsupportedFeature);
    }
    let count = sub_count as usize;
    let need: usize = 16 + 4 * count;
    if data.len() < need {
        return Err(EclError::Truncated);
    }

    let mut subs: Vec<Sub> = Vec::new();
    let mut i: usize = 0;
    while i < count
        invariant
            count == spec_sub_count(data@),
            i <= count,
            16 + 4 * count <= data@.len(),
            subs@.len() == i,
            spec_main_count(data@) == 0,
            forall|k: int|
                0 <= k < i ==> sub_script_at(data@, spec_sub_offset(data@, k), #[trigger] subs@[k]),
            spec_subs_run(data@, 0) == spec_subs_run(data@, i as int),
        decreases count - i,
    {
        let offset = read_u32_at(data, 16 + 4 * i);
        proof {
            assert(offset as int == spec_sub_offset(data@, i as int));
        }
        match parse_sub(data, offset as usize) {
            Ok(sub) => {
                proof {
                    let rr = spec_sub_run(data@, offset as int);
                    assert(sub_seq_at(data@, offset as int, rr->Ok_0, sub.instructions@));
                    assert(sub_script_at(data@, spec_sub_offset(data@, i as int), sub));
                    assert(spec_subs_run(data@, i as int) == spec_subs_run(data@, i + 1));
                }
                subs.push(sub);
            },
            Err(e) => {
                proof {
                    assert(spec_subs_run(data@, i as int) == Err::<(), EclError>(e));
                }
                return Err(e);
            },
        }
        i = i + 1;
    }

    proof {
        assert(spec_subs_run(data@, count as int) == Ok::<(), EclError>(()));
    }
    let m0 = read_u32_at(data, 4);
    let m1 = read_u32_at(data, 8);
    let m2 = read_u32_at(data, 12);
    let mcount: usize = if m0 == 0 {
        0
    } else if m1 == 0 {
        1
    } else if m2 == 0 {
        2
    } else {
        3
    };
    proof {
        assert(mcount as int == spec_main_prefix_count(data@));
    }

    let mut mains: Vec<Main> = Vec::new();
    let mut j: usize = 0;
    while j < mcount
        invariant
            mcount as int == spec_main_prefix_count(data@),
            j <= mcount,
            16 <= data@.len(),
            mains@.len() == j,
            spec_main_count(data@) == 0,
            spec_header_len(data@) <= data@.len(),
            subs@.len() == spec_sub_count(data@),
            forall|k: int|
                0 <= k < subs@.len() ==> sub_script_at(
                    data@,
                    spec_sub_offset(data@, k),
                    #[trigger] subs@[k],
                ),
            spec_subs_run(data@, 0) == Ok::<(), EclError>(()),
            forall|k: int|
                0 <= k < j ==> main_script_at(
                    data@,
                    spec_main_offset(data@, k),
                    #[trigger] mains@[k],
                ),
            spec_mains_run(data@, 0) == spec_mains_run(data@, j as int),
        decreases mcount - j,
    {
        let offset = read_u32_at(data, 4 + 4 * j);
        proof {
            assert(offset as int == spec_main_offset(data@, j as int));
        }
        match parse_main(data, offset as usize) {
            Ok(main) => {
                proof {
                    let rr = spec_main_run(data@, offset as int);
                    assert(main_seq_at(data@, offset as int, rr->Ok_0, main.instructions@));
                    assert(main_script_at(data@, spec_main_offset(data@, j as int), main));
                    assert(spec_mains_run(data@, j as int) == spec_mains_run(data@, j + 1));
                }
                mains.push(main);
            },
            Err(e) => {
                proof {
                    assert(spec_mains_run(data@, j as int) == Err::<(), EclError>(e));
                }
                return Err(e);
            },
        }
        j = j + 1;
    }

    proof {
        assert(spec_mains_run(data@, mcount as int) == Ok::<(), EclError>(()));
    }
    Ok(Ecl { subs, mains })
}

impl Ecl {
    /// Parse a slice of bytes into an `Ecl` struct.
    pub fn from_slice(data: &[u8]) -> (r: Result<Ecl, EclError>)
        ensures
            (r matches Ok(_)) == (spec_ecl_outcome(data@) matches Ok(_)),
            r matches Ok(e) ==> e.subs@.len() == spec_sub_count(data@),
            r matches Ok(e) ==> e.mains@.len() == spec_main_prefix_count(data@),
            r matches Ok(e) ==> forall|i: int|
                0 <= i < e.subs@.len() ==> sub_script_at(
                    data@,
                    spec_sub_offset(data@, i),
                    #[trigger] e.subs@[i],
                ),
            r matches Ok(e) ==> forall|j: int|
                0 <= j < e.mains@.len() ==> main_script_at(
                    data@,
                    spec_main_offset(data@, j),
                    #[trigger] e.mains@[j],
                ),
            r matches Err(e) ==> spec_ecl_outcome(data@) == Err::<(), EclError>(e),
    {
        parse_ecl(data)
    }
}

} // verus!
