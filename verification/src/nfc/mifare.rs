//! MIFARE Classic card memory as the readers use it: which blocks a read or a
//! write touches, in which order the reader authenticates and transfers them,
//! and what a later read gives back of a write.
use vstd::prelude::*;

verus! {

/// One exchange with a card, as the reader performs it.
pub enum MifareOp {
    /// Authenticate the block with the custom key A.
    Auth(u8),
    /// Read the block.
    Read(u8),
    /// Write the 16 bytes to the block.
    Write(u8, Vec<u8>),
}

/// An exchange with a card, as a mathematical value.
pub enum MifareStep {
    Auth(u8),
    Read(u8),
    Write(u8, Seq<u8>),
}

impl View for MifareOp {
    type V = MifareStep;

    open spec fn view(&self) -> MifareStep {
        match self {
            MifareOp::Auth(a) => MifareStep::Auth(*a),
            MifareOp::Read(a) => MifareStep::Read(*a),
            MifareOp::Write(a, p) => MifareStep::Write(*a, p@),
        }
    }
}

/// The steps of a list of exchanges.
pub open spec fn steps_of(ops: Seq<MifareOp>) -> Seq<MifareStep> {
    ops.map_values(|o: MifareOp| o@)
}

/// The blocks read by a read of `blocks` blocks after block `addr`: from
/// `addr` to `addr + blocks`, both included.
pub open spec fn read_addresses(addr: u8, blocks: u8) -> Seq<u8> {
    Seq::new(blocks as nat + 1, |i: int| (addr + i) as u8)
}

/// The exchanges of a read: each block is authenticated, then read.
pub open spec fn read_plan_steps(addr: u8, blocks: u8) -> Seq<MifareStep> {
    Seq::new(
        2 * (blocks as nat + 1),
        |k: int|
            if k % 2 == 0 {
                MifareStep::Auth((addr + k / 2) as u8)
            } else {
                MifareStep::Read((addr + k / 2) as u8)
            },
    )
}

/// The exchanges that read `blocks` blocks after block `addr` (so `blocks + 1`
/// blocks): authenticate and read each block in turn.
pub fn read_plan(addr: u8, blocks: u8) -> (ops: Vec<MifareOp>)
    requires
        addr + blocks <= 254,
    ensures
        steps_of(ops@) == read_plan_steps(addr, blocks),
{
    let mut cur_addr: u8 = addr;
    let mut ops: Vec<MifareOp> = Vec::new();
    loop
        invariant_except_break
            addr <= cur_addr <= addr + blocks,
            addr + blocks <= 254,
            steps_of(ops@) == read_plan_steps(addr, (cur_addr - addr) as u8).take(
                2 * (cur_addr - addr),
            ),
        ensures
            steps_of(ops@) == read_plan_steps(addr, blocks),
        decreases addr + blocks - cur_addr,
    {
        if cur_addr + 1 % 4 == 0 {
            cur_addr += 1;
        }
        let ghost before = steps_of(ops@);
        ops.push(MifareOp::Auth(cur_addr));
        ops.push(MifareOp::Read(cur_addr));
        proof {
            let i = cur_addr - addr;
            assert(steps_of(ops@) =~= before + seq![MifareStep::Auth(cur_addr), MifareStep::Read(cur_addr)]);
            assert(steps_of(ops@) =~= read_plan_steps(addr, i as u8).take(2 * (i + 1)));
            assert(read_plan_steps(addr, i as u8).take(2 * (i + 1)) =~= read_plan_steps(addr, i as u8));
            if i < blocks {
                assert(read_plan_steps(addr, (i + 1) as u8).take(2 * (i + 1)) =~= read_plan_steps(addr, i as u8));
            } else {
                assert(read_plan_steps(addr, i as u8) =~= read_plan_steps(addr, blocks));
            }
        }
        if cur_addr < addr + blocks {
            cur_addr += 1;
        } else {
            break;
        }
    }
    ops
}

/// The number of 16-byte blocks `len` bytes take.
pub open spec fn block_count(len: nat) -> nat {
    (len + 15) / 16
}

/// Block `i` of `data`: its bytes `16 i .. 16 i + 16`, zero past the end.
pub open spec fn padded_block(data: Seq<u8>, i: int) -> Seq<u8> {
    Seq::new(16, |j: int| if 16 * i + j < data.len() { data[16 * i + j] } else { 0u8 })
}

/// `data` followed by zeros up to a whole number of blocks.
pub open spec fn padded(data: Seq<u8>) -> Seq<u8> {
    Seq::new(16 * block_count(data.len()), |k: int| if k < data.len() { data[k] } else { 0u8 })
}

/// How many blocks a write of `n` blocks at block `addr` writes: a write stops
/// after block 62, and writes at least one block when it has data.
pub open spec fn write_count(addr: u8, n: nat) -> nat {
    if n == 0 {
        0
    } else if addr >= 62 {
        1
    } else if n <= 63 - addr {
        n
    } else {
        (63 - addr) as nat
    }
}

/// Whether a write of `n` blocks at `addr` ends with one more authentication:
/// it does when it ran out of data rather than into block 62.
pub open spec fn ends_with_auth(addr: u8, n: nat) -> bool {
    n == 0 || addr + n - 1 < 62
}

/// What a write of `n` blocks at `addr` reports as written: the blocks it
/// moved past.
pub open spec fn reported_count(addr: u8, n: nat) -> int {
    if ends_with_auth(addr, n) {
        write_count(addr, n) as int
    } else {
        write_count(addr, n) - 1
    }
}

/// The exchanges of a write of `data` at block `addr`: authenticate and write
/// each block in turn; when the data ran out, one more authentication.
pub open spec fn write_plan_steps(addr: u8, data: Seq<u8>) -> Seq<MifareStep> {
    let n = block_count(data.len());
    let w = write_count(addr, n);
    Seq::new(
        2 * w,
        |k: int|
            if k % 2 == 0 {
                MifareStep::Auth((addr + k / 2) as u8)
            } else {
                MifareStep::Write((addr + k / 2) as u8, padded_block(data, k / 2))
            },
    ) + if ends_with_auth(addr, n) {
        seq![MifareStep::Auth((addr + w) as u8)]
    } else {
        Seq::empty()
    }
}

/// The first `k` write steps of a write (authentication and write of `k / 2`... blocks).
pub open spec fn write_prefix(addr: u8, data: Seq<u8>, i: nat) -> Seq<MifareStep> {
    Seq::new(
        2 * i,
        |k: int|
            if k % 2 == 0 {
                MifareStep::Auth((addr + k / 2) as u8)
            } else {
                MifareStep::Write((addr + k / 2) as u8, padded_block(data, k / 2))
            },
    )
}

/// The 16 bytes of block `i` of `data`, zero-padded.
fn block_of(data: &Vec<u8>, start: usize) -> (p: Vec<u8>)
    requires
        start % 16 == 0,
        start < data@.len(),
    ensures
        p@ == padded_block(data@, start as int / 16),
{
    let mut p: Vec<u8> = Vec::new();
    let mut j: usize = 0;
    while j < 16
        invariant
            j <= 16,
            start % 16 == 0,
            start < data@.len(),
            p@ =~= padded_block(data@, start as int / 16).take(j as int),
        decreases 16 - j,
    {
        if j < data.len() - start {
            p.push(data[start + j]);
        } else {
            p.push(0);
        }
        j = j + 1;
        assert(p@ =~= padded_block(data@, start as int / 16).take(j as int));
    }
    assert(padded_block(data@, start as int / 16).take(16) =~= padded_block(data@, start as int / 16));
    p
}

/// The exchanges that write `data` from block `addr` on, 16 bytes a block,
/// the last block zero-padded; a write stops after block 62. Also gives the
/// number of blocks the write reports.
pub fn write_plan(addr: u8, data: &Vec<u8>) -> (r: (Vec<MifareOp>, u8))
    requires
        addr <= 254,
    ensures
        steps_of(r.0@) == write_plan_steps(addr, data@),
        r.1 == reported_count(addr, block_count(data@.len())),
{
    let ghost n = block_count(data@.len());
    let ghost w = write_count(addr, n);
    let len = data.len();
    let mut cur_addr: u8 = addr;
    let mut pos: usize = 0;
    let mut ops: Vec<MifareOp> = Vec::new();
    loop
        invariant_except_break
            addr <= 254,
            len == data@.len(),
            n == block_count(len as nat),
            w == write_count(addr, n),
            addr <= cur_addr,
            cur_addr <= 62 || cur_addr == addr,
            pos == if 16 * (cur_addr - addr) <= len { 16 * (cur_addr - addr) } else { len as int },
            cur_addr - addr <= n,
            steps_of(ops@) == write_prefix(addr, data@, (cur_addr - addr) as nat),
        ensures
            steps_of(ops@) == write_plan_steps(addr, data@),
            cur_addr - addr == reported_count(addr, n),
        decreases 255 - cur_addr,
    {
        if cur_addr + 1 % 4 == 0 {
            cur_addr += 1;
        }
        let ghost i = (cur_addr - addr) as nat;
        let ghost before = steps_of(ops@);
        ops.push(MifareOp::Auth(cur_addr));
        if pos >= len {
            proof {
                assert(i >= n) by (nonlinear_arith)
                    requires
                        16 * i >= len,
                        n == (len + 15) / 16,
                ;
                assert(steps_of(ops@) =~= write_plan_steps(addr, data@));
            }
            break;
        }
        proof {
            assert(i < n) by (nonlinear_arith)
                requires
                    16 * i < len,
                    n == (len + 15) / 16,
            ;
        }
        let packet = block_of(data, pos);
        ops.push(MifareOp::Write(cur_addr, packet));
        proof {
            assert(pos == 16 * i);
            assert(pos as int / 16 == i);
            let next = write_prefix(addr, data@, i + 1);
            assert(next.len() == 2 * i + 2);
            assert(next[2 * i as int] == MifareStep::Auth(cur_addr));
            assert(next[2 * i as int + 1] == MifareStep::Write(cur_addr, padded_block(data@, i as int)));
            assert forall|k: int| 0 <= k < 2 * i implies next[k] == before[k] by {
                assert(before == write_prefix(addr, data@, i));
            }
            assert(steps_of(ops@) =~= before + seq![MifareStep::Auth(cur_addr), MifareStep::Write(cur_addr, padded_block(data@, i as int))]);
            assert(steps_of(ops@) =~= write_prefix(addr, data@, i + 1));
        }
        if len - pos > 16 {
            pos = pos + 16;
        } else {
            pos = len;
        }
        if cur_addr < 62 {
            cur_addr += 1;
        } else {
            proof {
                assert(steps_of(ops@) =~= write_plan_steps(addr, data@));
            }
            break;
        }
    }
    (ops, cur_addr - addr)
}

/// The blocks of a card after the writes among `steps`, starting from `mem`.
pub open spec fn apply_steps(mem: Map<u8, Seq<u8>>, steps: Seq<MifareStep>) -> Map<u8, Seq<u8>>
    decreases steps.len(),
{
    if steps.len() == 0 {
        mem
    } else {
        let m = apply_steps(mem, steps.drop_last());
        match steps.last() {
            MifareStep::Write(a, p) => m.insert(a, p),
            _ => m,
        }
    }
}

/// The bytes the reads among `steps` give back from a card holding `mem`, in order.
pub open spec fn read_back(mem: Map<u8, Seq<u8>>, steps: Seq<MifareStep>) -> Seq<u8>
    decreases steps.len(),
{
    if steps.len() == 0 {
        Seq::empty()
    } else {
        let prev = read_back(mem, steps.drop_last());
        match steps.last() {
            MifareStep::Read(a) => prev + mem[a],
            _ => prev,
        }
    }
}

proof fn lemma_apply_write_prefix(mem: Map<u8, Seq<u8>>, addr: u8, data: Seq<u8>, i: nat)
    requires
        addr + i <= 256,
    ensures
        forall|t: int|
            0 <= t < i ==> #[trigger] apply_steps(mem, write_prefix(addr, data, i)).contains_key(
                (addr + t) as u8,
            ) && apply_steps(mem, write_prefix(addr, data, i))[(addr + t) as u8] == padded_block(
                data,
                t,
            ),
    decreases i,
{
    if i > 0 {
        let j = (i - 1) as nat;
        lemma_apply_write_prefix(mem, addr, data, j);
        let s = write_prefix(addr, data, i);
        let a = (addr + j) as u8;
        assert(s.drop_last().drop_last() =~= write_prefix(addr, data, j));
        assert(s.last() == MifareStep::Write(a, padded_block(data, j as int)));
        assert(s.drop_last().last() == MifareStep::Auth(a));
        assert(apply_steps(mem, s.drop_last()) == apply_steps(mem, write_prefix(addr, data, j)));
        let prev = apply_steps(mem, write_prefix(addr, data, j));
        let mi = apply_steps(mem, s);
        assert(mi == prev.insert(a, padded_block(data, j as int)));
        assert forall|t: int| 0 <= t < i implies #[trigger] mi.contains_key((addr + t) as u8) && mi[(
        addr + t) as u8] == padded_block(data, t) by {
            if t < j {
                assert(prev.contains_key((addr + t) as u8));
                assert((addr + t) as u8 != a);
            }
        }
    }
}

proof fn lemma_read_prefix(m: Map<u8, Seq<u8>>, addr: u8, data: Seq<u8>, blocks: u8, i: nat)
    requires
        i <= blocks + 1,
        addr + blocks <= 255,
        forall|t: int|
            0 <= t <= blocks ==> #[trigger] m[(addr + t) as u8] == padded_block(data, t),
    ensures
        read_back(m, read_plan_steps(addr, blocks).take(2 * i as int)) =~= Seq::new(
            16 * i,
            |k: int| if k < data.len() { data[k] } else { 0u8 },
        ),
    decreases i,
{
    if i > 0 {
        let j = (i - 1) as nat;
        lemma_read_prefix(m, addr, data, blocks, j);
        let s = read_plan_steps(addr, blocks).take(2 * i as int);
        let a = (addr + j) as u8;
        assert(s.drop_last().drop_last() =~= read_plan_steps(addr, blocks).take(2 * j as int));
        assert(s.last() == MifareStep::Read(a));
        assert(s.drop_last().last() == MifareStep::Auth(a));
        assert(m[a] == padded_block(data, j as int));
        assert(read_back(m, s.drop_last()) == read_back(m, read_plan_steps(addr, blocks).take(2 * j as int)));
    }
}

/// A read of the blocks a write wrote gives back the written data, zero-padded
/// to whole blocks, whatever the card held before: writing `data` at `addr`,
/// then reading `block_count - 1` blocks after `addr`, yields `padded(data)`.
pub proof fn lemma_write_then_read(mem: Map<u8, Seq<u8>>, addr: u8, data: Seq<u8>)
    requires
        data.len() >= 1,
        addr + block_count(data.len()) <= 62,
    ensures
        read_back(
            apply_steps(mem, write_plan_steps(addr, data)),
            read_plan_steps(addr, (block_count(data.len()) - 1) as u8),
        ) == padded(data),
{
    let n = block_count(data.len());
    assert(n >= 1);
    assert(write_count(addr, n) == n);
    assert(ends_with_auth(addr, n));
    let plan = write_plan_steps(addr, data);
    assert(plan.drop_last() =~= write_prefix(addr, data, n));
    assert(plan.last() is Auth);
    let m = apply_steps(mem, plan);
    assert(m == apply_steps(mem, write_prefix(addr, data, n)));
    lemma_apply_write_prefix(mem, addr, data, n);
    let blocks = (n - 1) as u8;
    assert forall|t: int| 0 <= t <= blocks implies #[trigger] m[(addr + t) as u8] == padded_block(data, t) by {
        assert(0 <= t < n);
        assert(apply_steps(mem, write_prefix(addr, data, n)).contains_key((addr + t) as u8));
    }
    lemma_read_prefix(m, addr, data, blocks, n);
    assert(read_plan_steps(addr, blocks).take(2 * n as int) =~= read_plan_steps(addr, blocks));
    assert(padded(data) =~= Seq::new(16 * n, |k: int| if k < data.len() { data[k] } else { 0u8 }));
}

/// The sector trailers a card rewrite touches: block 3 of each of the 16
/// sectors, from block 3 to block 63.
pub fn trailer_addresses() -> (r: Vec<u8>)
    ensures
        r@ == Seq::new(16, |i: int| (4 * i + 3) as u8),
{
    let mut addr: u8 = 3;
    let mut r: Vec<u8> = Vec::new();
    loop
        invariant_except_break
            3 <= addr <= 63,
            addr % 4 == 3,
            r@ == Seq::new(((addr - 3) / 4) as nat, |i: int| (4 * i + 3) as u8),
        ensures
            r@ == Seq::new(16, |i: int| (4 * i + 3) as u8),
        decreases 63 - addr,
    {
        r.push(addr);
        assert(r@ =~= Seq::new(((addr + 1) / 4) as nat, |i: int| (4 * i + 3) as u8));
        if addr < 62 {
            addr += 4;
        } else {
            break;
        }
    }
    r
}

/// What the reader answered one exchange: the block it read, or an empty
/// answer to an authentication or a write; an error stops the exchanges.
pub open spec fn answer_bytes(a: Result<Vec<u8>, String>) -> Seq<u8> {
    match a {
        Ok(v) => v@,
        Err(_) => Seq::empty(),
    }
}

/// The bytes the first `n` exchanges of `steps` gave back, in order: the
/// answers to the reads, joined.
pub open spec fn reads_joined(steps: Seq<MifareStep>, answers: Seq<Result<Vec<u8>, String>>, n: nat) -> Seq<u8>
    decreases n,
{
    if n == 0 {
        Seq::empty()
    } else {
        let prev = reads_joined(steps, answers, (n - 1) as nat);
        if steps[n - 1] is Read {
            prev + answer_bytes(answers[n - 1])
        } else {
            prev
        }
    }
}

/// Where a run of exchanges with a card stands.
pub enum RunStep {
    /// Perform the exchange at this position next and hand its answer back.
    Next(usize),
    /// The run is over: the bytes read, joined in order, or the first error.
    Done(Result<Vec<u8>, String>),
}

/// The step of the run of `ops` after the reader answered `answers`, one
/// for each exchange from the first: the first error ends the run with it;
/// once every exchange went through, the run ends with the answers to the
/// reads joined in order (see `reads_joined`); otherwise the next exchange
/// is performed.
pub open spec fn spec_run_step(ops: Seq<MifareOp>, answers: Seq<Result<Vec<u8>, String>>, r: RunStep) -> bool {
    match r {
        RunStep::Next(i) => answers.len() < ops.len()
            && (forall|k: int| 0 <= k < answers.len() ==> #[trigger] answers[k] is Ok)
            && i == answers.len(),
        RunStep::Done(Err(e)) => exists|j: int| #![trigger answers[j]]
            0 <= j < answers.len() && j < ops.len() && answers[j] is Err
                && (forall|k: int| 0 <= k < j ==> #[trigger] answers[k] is Ok)
                && e@ == answers[j]->Err_0@,
        RunStep::Done(Ok(v)) => answers.len() >= ops.len()
            && (forall|k: int| 0 <= k < ops.len() ==> #[trigger] answers[k] is Ok)
            && v@ == reads_joined(steps_of(ops), answers, ops.len()),
    }
}

/// The next step of running `ops` against a card (see `spec_run_step`).
pub fn run_step(ops: &Vec<MifareOp>, answers: &Vec<Result<Vec<u8>, String>>) -> (r: RunStep)
    ensures
        spec_run_step(ops@, answers@, r),
{
    let ghost steps = steps_of(ops@);
    let mut out: Vec<u8> = Vec::new();
    let mut i: usize = 0;
    while i < answers.len() && i < ops.len()
        invariant
            i <= answers.len(),
            i <= ops.len(),
            steps == steps_of(ops@),
            forall|k: int| 0 <= k < i ==> #[trigger] answers@[k] is Ok,
            out@ == reads_joined(steps, answers@, i as nat),
        decreases ops.len() - i,
    {
        match &answers[i] {
            Err(e) => {
                assert(answers@[i as int] is Err);
                return RunStep::Done(Err(e.clone()));
            },
            Ok(bytes) => {
                let is_read = match &ops[i] {
                    MifareOp::Read(_) => true,
                    _ => false,
                };
                assert(steps[i as int] == ops@[i as int]@);
                if is_read {
                    let mut k: usize = 0;
                    let ghost start = out@;
                    while k < bytes.len()
                        invariant
                            k <= bytes.len(),
                            out@ == start + bytes@.take(k as int),
                        decreases bytes.len() - k,
                    {
                        out.push(bytes[k]);
                        k = k + 1;
                        assert(out@ =~= start + bytes@.take(k as int));
                    }
                    assert(bytes@.take(k as int) =~= bytes@);
                }
            },
        }
        i = i + 1;
    }
    if answers.len() < ops.len() {
        RunStep::Next(answers.len())
    } else {
        RunStep::Done(Ok(out))
    }
}

proof fn lemma_joined_prefix(mem: Map<u8, Seq<u8>>, steps: Seq<MifareStep>, answers: Seq<Result<Vec<u8>, String>>, n: nat)
    requires
        n <= steps.len(),
        n <= answers.len(),
        forall|i: int| 0 <= i < steps.len() ==> (#[trigger] steps[i] matches MifareStep::Read(a) ==> answer_bytes(answers[i]) == mem[a]),
    ensures
        reads_joined(steps, answers, n) == read_back(mem, steps.take(n as int)),
    decreases n,
{
    if n > 0 {
        lemma_joined_prefix(mem, steps, answers, (n - 1) as nat);
        assert(steps.take(n as int).drop_last() =~= steps.take(n - 1));
        assert(steps.take(n as int).last() == steps[n - 1]);
    }
}

/// Running exchanges against a card gives back what the card holds: where
/// each read answered the block the card holds, the bytes joined by a run
/// are the bytes the reads give back of that memory (see `read_back`).
pub proof fn lemma_run_reads_back(mem: Map<u8, Seq<u8>>, steps: Seq<MifareStep>, answers: Seq<Result<Vec<u8>, String>>)
    requires
        steps.len() <= answers.len(),
        forall|i: int| 0 <= i < steps.len() ==> (#[trigger] steps[i] matches MifareStep::Read(a) ==> answer_bytes(answers[i]) == mem[a]),
    ensures
        reads_joined(steps, answers, steps.len()) == read_back(mem, steps),
{
    lemma_joined_prefix(mem, steps, answers, steps.len());
    assert(steps.take(steps.len() as int) =~= steps);
}

} // verus!
