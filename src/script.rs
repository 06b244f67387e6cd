//! The data of the arbitrating locks and the scripts that enforce them.

use vstd::prelude::*;

use crate::crypto::sha256_of;

verus! {

pub const OP_0: u8 = 0x00;
pub const OP_PUSHNUM_2: u8 = 0x52;
pub const OP_IF: u8 = 0x63;
pub const OP_ELSE: u8 = 0x67;
pub const OP_ENDIF: u8 = 0x68;
pub const OP_DROP: u8 = 0x75;
pub const OP_CHECKSIG: u8 = 0xac;
pub const OP_CHECKMULTISIG: u8 = 0xae;
pub const OP_CSV: u8 = 0xb2;

/// The two keys of a 2-of-2 multisig path, in the order Alice, Bob.
#[derive(Debug, Clone)]
pub struct DoubleKeys {
    pub alice: Vec<u8>,
    pub bob: Vec<u8>,
}

/// The lock created by the lock transaction: both parties together, or,
/// after `timelock`, both parties' cancel keys.
#[derive(Debug, Clone)]
pub struct DataLock {
    pub timelock: u32,
    pub success: DoubleKeys,
    pub failure: DoubleKeys,
}

/// The lock created by the cancel transaction: both parties together, or,
/// after `timelock`, the `failure` key alone.
#[derive(Debug, Clone)]
pub struct DataPunishableLock {
    pub timelock: u32,
    pub success: DoubleKeys,
    pub failure: Vec<u8>,
}

/// A serialized public key: compressed or uncompressed.
pub open spec fn is_key_encoding(k: Seq<u8>) -> bool {
    k.len() == 33 || k.len() == 65
}

impl DoubleKeys {
    pub open spec fn wf(&self) -> bool {
        is_key_encoding(self.alice@) && is_key_encoding(self.bob@)
    }
}

impl DataLock {
    pub open spec fn wf(&self) -> bool {
        self.success.wf() && self.failure.wf()
    }
}

impl DataPunishableLock {
    pub open spec fn wf(&self) -> bool {
        self.success.wf() && is_key_encoding(self.failure@)
    }
}

/// A push of fewer than 76 bytes: their count, then the bytes.
pub open spec fn push_data(d: Seq<u8>) -> Seq<u8> {
    seq![d.len() as u8] + d
}

/// The little-endian bytes of a number, without trailing zeros.
pub open spec fn le_min(n: nat) -> Seq<u8>
    decreases n,
{
    if n == 0 {
        Seq::empty()
    } else {
        seq![(n % 256) as u8] + le_min(n / 256)
    }
}

/// The script-number encoding of a non-negative number: its minimal
/// little-endian bytes, with a zero byte added where the last one has its
/// sign bit set.
pub open spec fn scriptint_bytes(n: nat) -> Seq<u8> {
    let le = le_min(n);
    if le.len() > 0 && le.last() >= 0x80 {
        le.push(0u8)
    } else {
        le
    }
}

/// What the script builder appends to push a non-negative integer: a single
/// `OP_n` opcode for 1 to 16, else a push of its script-number encoding
/// (the empty push for 0).
pub open spec fn int_push_bytes(n: nat) -> Seq<u8> {
    if 1 <= n <= 16 {
        seq![(0x50 + n) as u8]
    } else {
        push_data(scriptint_bytes(n))
    }
}

/// `2 <alice> <bob> 2 CHECKMULTISIG`
pub open spec fn multisig_bytes(k: DoubleKeys) -> Seq<u8> {
    seq![OP_PUSHNUM_2] + push_data(k.alice@) + push_data(k.bob@) + seq![
        OP_PUSHNUM_2,
        OP_CHECKMULTISIG,
    ]
}

/// `IF <success multisig> ELSE <timelock> CSV DROP <failure multisig> ENDIF`
pub open spec fn lock_script_bytes(l: DataLock) -> Seq<u8> {
    seq![OP_IF] + multisig_bytes(l.success) + seq![OP_ELSE] + int_push_bytes(l.timelock as nat)
        + seq![OP_CSV, OP_DROP] + multisig_bytes(l.failure) + seq![OP_ENDIF]
}

/// `IF <success multisig> ELSE <timelock> CSV DROP <failure> CHECKSIG ENDIF`
pub open spec fn punishable_script_bytes(l: DataPunishableLock) -> Seq<u8> {
    seq![OP_IF] + multisig_bytes(l.success) + seq![OP_ELSE] + int_push_bytes(l.timelock as nat)
        + seq![OP_CSV, OP_DROP] + push_data(l.failure@) + seq![OP_CHECKSIG, OP_ENDIF]
}

/// The pay-to-witness-script-hash output script of a witness script.
pub open spec fn p2wsh_bytes(script: Seq<u8>) -> Seq<u8> {
    seq![OP_0, 32u8] + sha256_of(script)
}

/// One instruction of a parsed script.
#[derive(Debug, Clone)]
pub enum ScriptItem {
    /// Pushes the bytes.
    Push(Vec<u8>),
    /// Any other opcode.
    Op(u8),
    /// The script could not be parsed from here on.
    Invalid,
}

/// An instruction as plain values.
pub enum Instr {
    Push(Seq<u8>),
    Op(u8),
    Invalid,
}

impl View for ScriptItem {
    type V = Instr;

    open spec fn view(&self) -> Instr {
        match *self {
            ScriptItem::Push(b) => Instr::Push(b@),
            ScriptItem::Op(op) => Instr::Op(op),
            ScriptItem::Invalid => Instr::Invalid,
        }
    }
}

/// Parsed instructions as plain values.
pub open spec fn items_view(items: Seq<ScriptItem>) -> Seq<Instr> {
    items.map_values(|i: ScriptItem| i@)
}

/// The number of bytes before a push's data: one for the pushes of 0 to 75
/// bytes, then 2, 3 and 5 for `OP_PUSHDATA1`, `2` and `4`; zero for any
/// other opcode.
pub open spec fn push_header(b: u8) -> int {
    if b <= 75 {
        1
    } else if b == 0x4c {
        2
    } else if b == 0x4d {
        3
    } else if b == 0x4e {
        5
    } else {
        0
    }
}

/// The data length that a push announces, where its header is there.
pub open spec fn push_length(s: Seq<u8>) -> int {
    let b = s[0];
    if b <= 75 {
        b as int
    } else if b == 0x4c {
        s[1] as int
    } else if b == 0x4d {
        s[1] as int + 256 * s[2] as int
    } else {
        s[1] as int + 256 * s[2] as int + 65536 * s[3] as int + 16777216 * s[4] as int
    }
}

/// The instructions of a script, in order; a push cut short by the end of
/// the script gives `Invalid`, and nothing follows it.
pub open spec fn parse_script(s: Seq<u8>) -> Seq<Instr>
    decreases s.len(),
{
    if s.len() == 0 {
        Seq::empty()
    } else {
        let h = push_header(s[0]);
        if h == 0 {
            seq![Instr::Op(s[0])] + parse_script(s.subrange(1, s.len() as int))
        } else if s.len() < h || s.len() < h + push_length(s) {
            seq![Instr::Invalid]
        } else {
            let n = push_length(s);
            seq![Instr::Push(s.subrange(h, h + n))] + parse_script(s.subrange(h + n, s.len() as int))
        }
    }
}

/// Relies on bitcoin's `Script::instructions`: the instructions of the
/// script in order, pushes classified by their first byte; after an error
/// it yields nothing more.
#[verifier::external_body]
pub(crate) fn instructions(script: &Vec<u8>) -> (r: Vec<ScriptItem>)
    ensures
        items_view(r@) == parse_script(script@),
{
    let script = bitcoin::Script::from(script.clone());
    let r = script.instructions().map(|i| match i {
        Ok(bitcoin::blockdata::script::Instruction::PushBytes(b)) => ScriptItem::Push(b.to_vec()),
        Ok(bitcoin::blockdata::script::Instruction::Op(op)) => ScriptItem::Op(op.into_u8()),
        Err(_) => ScriptItem::Invalid,
    }).collect();
    r
}

/// Bytes that parse as one instruction: an opcode that pushes nothing, or
/// a push of at most 75 bytes.
pub open spec fn is_simple_chunk(c: Seq<u8>) -> bool {
    ||| c.len() == 1 && push_header(c[0]) == 0
    ||| 1 <= c.len() <= 76 && c[0] == (c.len() - 1) as u8
}

/// The instruction that a simple chunk parses as.
pub open spec fn chunk_item(c: Seq<u8>) -> Instr {
    if c.len() == 1 && push_header(c[0]) == 0 {
        Instr::Op(c[0])
    } else {
        Instr::Push(c.subrange(1, c.len() as int))
    }
}

/// Chunks written one after the other.
pub open spec fn concat_all(cs: Seq<Seq<u8>>) -> Seq<u8>
    decreases cs.len(),
{
    if cs.len() == 0 {
        Seq::empty()
    } else {
        cs[0] + concat_all(cs.drop_first())
    }
}

/// A script made of simple chunks parses as one instruction per chunk.
pub proof fn lemma_parse_chunks(cs: Seq<Seq<u8>>)
    requires
        forall|i: int| 0 <= i < cs.len() ==> is_simple_chunk(#[trigger] cs[i]),
    ensures
        parse_script(concat_all(cs)) == cs.map_values(|c: Seq<u8>| chunk_item(c)),
    decreases cs.len(),
{
    if cs.len() > 0 {
        let c = cs[0];
        let rest = concat_all(cs.drop_first());
        let s = c + rest;
        assert forall|i: int| 0 <= i < cs.drop_first().len() implies is_simple_chunk(
            #[trigger] cs.drop_first()[i],
        ) by {
            assert(cs.drop_first()[i] == cs[i + 1]);
        }
        lemma_parse_chunks(cs.drop_first());
        assert(is_simple_chunk(c));
        assert(s[0] == c[0]);
        if c.len() == 1 && push_header(c[0]) == 0 {
            assert(s.subrange(1, s.len() as int) =~= rest);
        } else {
            assert(push_header(c[0]) == 1);
            assert(push_length(s) == c.len() - 1);
            assert(s.subrange(1, c.len() as int) =~= c.subrange(1, c.len() as int));
            assert(s.subrange(c.len() as int, s.len() as int) =~= rest);
        }
        assert(cs.map_values(|c: Seq<u8>| chunk_item(c)) =~= seq![chunk_item(c)] + cs.drop_first().map_values(
            |c: Seq<u8>| chunk_item(c),
        ));
    }
}

/// A bound on numbers of `k` bytes.
pub open spec fn byte_bound(k: nat) -> nat
    decreases k,
{
    if k == 0 {
        1
    } else {
        256 * byte_bound((k - 1) as nat)
    }
}

proof fn lemma_le_min_len(n: nat, k: nat)
    requires
        n < byte_bound(k),
    ensures
        le_min(n).len() <= k,
    decreases k,
{
    if n > 0 {
        let b = byte_bound((k - 1) as nat);
        assert(n / 256 < b) by (nonlinear_arith)
            requires
                n < 256 * b,
        ;
        lemma_le_min_len(n / 256, (k - 1) as nat);
    }
}

/// The push of a 32-bit number is a simple chunk.
pub proof fn lemma_int_push_simple(n: u32)
    ensures
        is_simple_chunk(int_push_bytes(n as nat)),
{
    if !(1 <= n <= 16) {
        assert(byte_bound(4) == 4294967296) by {
            reveal_with_fuel(byte_bound, 5);
        }
        lemma_le_min_len(n as nat, 4);
        let d = scriptint_bytes(n as nat);
        assert(d.len() <= 5);
        assert(push_data(d)[0] == d.len() as u8);
    }
}

/// A push of a serialized public key is a simple chunk.
proof fn lemma_push_simple(d: Seq<u8>)
    requires
        d.len() <= 75,
    ensures
        is_simple_chunk(push_data(d)),
        chunk_item(push_data(d)) == Instr::Push(d),
{
    assert(push_data(d).subrange(1, push_data(d).len() as int) =~= d);
}

/// In the lock script, the instructions at positions 11 and 12 push the
/// failure keys of Alice and Bob, the keys of the timelocked multisig.
#[verifier::rlimit(80)]
pub proof fn lemma_lock_failure_keys(l: DataLock)
    requires
        l.wf(),
    ensures
        parse_script(lock_script_bytes(l)).len() == 16,
        parse_script(lock_script_bytes(l))[11] == Instr::Push(l.failure.alice@),
        parse_script(lock_script_bytes(l))[12] == Instr::Push(l.failure.bob@),
{
    let cs = seq![
        seq![OP_IF],
        seq![OP_PUSHNUM_2],
        push_data(l.success.alice@),
        push_data(l.success.bob@),
        seq![OP_PUSHNUM_2],
        seq![OP_CHECKMULTISIG],
        seq![OP_ELSE],
        int_push_bytes(l.timelock as nat),
        seq![OP_CSV],
        seq![OP_DROP],
        seq![OP_PUSHNUM_2],
        push_data(l.failure.alice@),
        push_data(l.failure.bob@),
        seq![OP_PUSHNUM_2],
        seq![OP_CHECKMULTISIG],
        seq![OP_ENDIF],
    ];
    lemma_int_push_simple(l.timelock);
    lemma_push_simple(l.success.alice@);
    lemma_push_simple(l.success.bob@);
    lemma_push_simple(l.failure.alice@);
    lemma_push_simple(l.failure.bob@);
    assert(concat_all(cs) =~= lock_script_bytes(l)) by {
        reveal_with_fuel(concat_all, 17);
    }
    lemma_parse_chunks(cs);
}

/// In the punishable lock script, the instruction at position 10 pushes
/// the failure key.
pub proof fn lemma_punishable_failure_key(l: DataPunishableLock)
    requires
        l.wf(),
    ensures
        parse_script(punishable_script_bytes(l)).len() == 13,
        parse_script(punishable_script_bytes(l))[10] == Instr::Push(l.failure@),
{
    let cs = seq![
        seq![OP_IF],
        seq![OP_PUSHNUM_2],
        push_data(l.success.alice@),
        push_data(l.success.bob@),
        seq![OP_PUSHNUM_2],
        seq![OP_CHECKMULTISIG],
        seq![OP_ELSE],
        int_push_bytes(l.timelock as nat),
        seq![OP_CSV],
        seq![OP_DROP],
        push_data(l.failure@),
        seq![OP_CHECKSIG],
        seq![OP_ENDIF],
    ];
    lemma_int_push_simple(l.timelock);
    lemma_push_simple(l.success.alice@);
    lemma_push_simple(l.success.bob@);
    lemma_push_simple(l.failure@);
    assert(concat_all(cs) =~= punishable_script_bytes(l)) by {
        reveal_with_fuel(concat_all, 14);
    }
    lemma_parse_chunks(cs);
}

/// Relies on bitcoin's `Builder::push_opcode`: appends the opcode byte.
#[verifier::external_body]
fn push_opcode(b: Vec<u8>, op: u8) -> (r: Vec<u8>)
    ensures
        r@ == b@.push(op),
{
    let op = bitcoin::blockdata::opcodes::All::from(op);
    bitcoin::blockdata::script::Builder::from(b).push_opcode(op).into_script().into_bytes()
}

/// Relies on bitcoin's `Builder::push_slice`: below 76 bytes, appends the
/// length as one byte and then the bytes.
#[verifier::external_body]
fn push_slice(b: Vec<u8>, data: &Vec<u8>) -> (r: Vec<u8>)
    requires
        data@.len() < 76,
    ensures
        r@ == b@ + push_data(data@),
{
    bitcoin::blockdata::script::Builder::from(b).push_slice(data.as_slice()).into_script().into_bytes()
}

/// Relies on bitcoin's `Builder::push_int`: appends the push of an integer,
/// with `build_scriptint` for the numbers that have no opcode. Only
/// non-negative values are pushed here, for which the builder never negates.
#[verifier::external_body]
fn push_int(b: Vec<u8>, n: u32) -> (r: Vec<u8>)
    ensures
        r@ == b@ + int_push_bytes(n as nat),
{
    bitcoin::blockdata::script::Builder::from(b).push_int(n as i64).into_script().into_bytes()
}

/// Relies on bitcoin's `Script::to_v0_p2wsh`: `OP_0`, then a push of the
/// SHA-256 digest of the script.
#[verifier::external_body]
pub(crate) fn to_v0_p2wsh(script: &Vec<u8>) -> (r: Vec<u8>)
    ensures
        r@ == p2wsh_bytes(script@),
{
    bitcoin::Script::from(script.clone()).to_v0_p2wsh().into_bytes()
}

fn push_multisig(b: Vec<u8>, k: &DoubleKeys) -> (r: Vec<u8>)
    requires
        k.wf(),
    ensures
        r@ == b@ + multisig_bytes(*k),
{
    let ghost b0 = b@;
    let b = push_opcode(b, OP_PUSHNUM_2);
    let b = push_slice(b, &k.alice);
    let b = push_slice(b, &k.bob);
    let b = push_opcode(b, OP_PUSHNUM_2);
    let r = push_opcode(b, OP_CHECKMULTISIG);
    assert(r@ =~= b0 + multisig_bytes(*k));
    r
}

impl DataLock {
    /// The witness script of the lock output.
    pub fn script(&self) -> (r: Vec<u8>)
        requires
            self.wf(),
        ensures
            r@ == lock_script_bytes(*self),
    {
        let b = push_opcode(Vec::new(), OP_IF);
        let b = push_multisig(b, &self.success);
        let b = push_opcode(b, OP_ELSE);
        let b = push_int(b, self.timelock);
        let b = push_opcode(b, OP_CSV);
        let b = push_opcode(b, OP_DROP);
        let b = push_multisig(b, &self.failure);
        let r = push_opcode(b, OP_ENDIF);
        assert(r@ =~= lock_script_bytes(*self));
        r
    }
}

impl DataPunishableLock {
    /// The witness script of the punishable lock output.
    pub fn script(&self) -> (r: Vec<u8>)
        requires
            self.wf(),
        ensures
            r@ == punishable_script_bytes(*self),
    {
        let b = push_opcode(Vec::new(), OP_IF);
        let b = push_multisig(b, &self.success);
        let b = push_opcode(b, OP_ELSE);
        let b = push_int(b, self.timelock);
        let b = push_opcode(b, OP_CSV);
        let b = push_opcode(b, OP_DROP);
        let b = push_slice(b, &self.failure);
        let b = push_opcode(b, OP_CHECKSIG);
        let r = push_opcode(b, OP_ENDIF);
        assert(r@ =~= punishable_script_bytes(*self));
        r
    }
}

} // verus!
