//! Workload models: whether a request reads or writes, which key it names, and
//! the sizes of what it writes; and the table that remembers each key's size.
use vstd::prelude::*;

verus! {

/// Number of distinct keys.
pub const NVALUES: usize = 100000;

/// Writes per thousand requests in the uniform model.
pub const PCT_SET: u64 = 2;

/// Value size in the uniform model.
pub const VALUE_SIZE: usize = 2;

/// Key size in the uniform model, and the least key size in the empirical one.
pub const KEY_SIZE: usize = 20;

/// Writes per thousand requests in the empirical model.
pub const ETC_PCT_SET: u64 = 30;

/// The largest key size in the empirical model.
pub const ETC_MAX_KEY_SIZE: usize = 256;

/// Number of entries in the empirical model's table of small value sizes.
pub const ETC_TABLE_LEN: usize = 15;

/// The table's probabilities are given in units of one part in this many; a
/// draw for the table is a point in `0..ETC_TABLE_SCALE`.
pub const ETC_TABLE_SCALE: u32 = 100000;

/// Whether a request reads or writes its key.
#[derive(Clone, Copy, Debug, PartialEq, Eq, Structural)]
pub enum Op {
    Read,
    Write,
}

/// The two workload shapes: uniform sizes, or sizes drawn from distributions
/// fitted to production traces.
#[derive(Clone, Copy, Debug, PartialEq, Eq, Structural)]
pub enum Workload {
    Usr,
    Etc,
}

/// The key identifier that the high half of a request's randomness selects.
pub open spec fn key_of(high32: u64) -> u64 {
    high32 % (NVALUES as u64)
}

/// Selects the key identifier from the high half of a request's randomness.
pub fn select_key(high32: u64) -> (r: u64)
    ensures
        r == key_of(high32),
        r < NVALUES,
{
    high32 % (NVALUES as u64)
}

impl Workload {
    /// Writes per thousand requests.
    pub open spec fn spec_write_threshold(self) -> u64 {
        match self {
            Workload::Usr => PCT_SET,
            Workload::Etc => ETC_PCT_SET,
        }
    }

    /// What a request whose low random half is `low32` does.
    pub open spec fn op_of(self, low32: u64) -> Op {
        if low32 % 1000 < self.spec_write_threshold() {
            Op::Write
        } else {
            Op::Read
        }
    }

    /// Classifies a request by the low half of its randomness: a write when it
    /// falls, modulo 1000, below the model's write threshold.
    pub fn classify(self, low32: u64) -> (r: Op)
        ensures
            r == self.op_of(low32),
    {
        let threshold = match self {
            Workload::Usr => PCT_SET,
            Workload::Etc => ETC_PCT_SET,
        };
        if low32 % 1000 < threshold {
            Op::Write
        } else {
            Op::Read
        }
    }
}

/// How many of the `n` low-half values from `start` on the model classifies as
/// writes.
pub open spec fn writes_in(model: Workload, start: nat, n: nat) -> nat
    decreases n,
{
    if n == 0 {
        0
    } else {
        writes_in(model, start, (n - 1) as nat) + if model.op_of((start + n - 1) as u64)
            == Op::Write {
            1nat
        } else {
            0nat
        }
    }
}

/// Of any 1000 consecutive low-half values starting at a multiple of 1000, the
/// model classifies exactly its threshold (writes per thousand) as writes.
pub proof fn lemma_write_fraction(model: Workload, start: nat)
    requires
        start % 1000 == 0,
        start + 1000 <= u64::MAX + 1,
    ensures
        writes_in(model, start, 1000) == model.spec_write_threshold(),
{
    lemma_writes_prefix(model, start, 1000);
}

proof fn lemma_writes_prefix(model: Workload, start: nat, n: nat)
    requires
        start % 1000 == 0,
        n <= 1000,
        start + n <= u64::MAX + 1,
    ensures
        writes_in(model, start, n) == if n < model.spec_write_threshold() {
            n
        } else {
            model.spec_write_threshold() as nat
        },
    decreases n,
{
    if n > 0 {
        lemma_writes_prefix(model, start, (n - 1) as nat);
        let k = (n - 1) as nat;
        assert((start + k) % 1000 == k) by (nonlinear_arith)
            requires
                start % 1000 == 0,
                k < 1000,
        ;
        assert(((start + k) as u64) as nat == start + k);
    }
}

/// Weight of entry `i` of the table of small value sizes (entry `i` is value
/// size `i`), in parts of `ETC_TABLE_SCALE`.
pub open spec fn etc_weight(i: int) -> nat {
    if i == 0 {
        536
    } else if i == 1 {
        47
    } else if i == 2 {
        17820
    } else if i == 3 {
        9239
    } else if i == 4 {
        18
    } else if i == 5 {
        2740
    } else if i == 6 {
        65
    } else if i == 7 {
        606
    } else if i == 8 {
        23
    } else if i == 9 {
        837
    } else if i == 10 {
        837
    } else if i == 11 {
        8989
    } else if i == 12 {
        92
    } else if i == 13 {
        326
    } else if i == 14 {
        1980
    } else {
        0
    }
}

/// Total weight of the first `n` table entries.
pub open spec fn etc_cum(n: nat) -> nat
    decreases n,
{
    if n == 0 {
        0
    } else {
        etc_cum((n - 1) as nat) + etc_weight(n - 1)
    }
}

/// The whole table's weight: draws at or above it fall to the tail model.
pub proof fn lemma_etc_table_mass()
    ensures
        etc_cum(ETC_TABLE_LEN as nat) == 44155,
{
    reveal_with_fuel(etc_cum, 16);
}

/// What a draw of `point` picks from the table: `Some(s)` where the point falls
/// in entry `s`'s share, `None` where it lies beyond the table.
pub open spec fn etc_table_pick(point: nat, r: Option<usize>) -> bool {
    match r {
        Some(s) => s < ETC_TABLE_LEN && etc_cum(s as nat) <= point < etc_cum((s + 1) as nat),
        None => point >= etc_cum(ETC_TABLE_LEN as nat),
    }
}

fn etc_weight_at(i: usize) -> (r: u32)
    requires
        i < ETC_TABLE_LEN,
    ensures
        r == etc_weight(i as int),
{
    match i {
        0 => 536,
        1 => 47,
        2 => 17820,
        3 => 9239,
        4 => 18,
        5 => 2740,
        6 => 65,
        7 => 606,
        8 => 23,
        9 => 837,
        10 => 837,
        11 => 8989,
        12 => 92,
        13 => 326,
        _ => 1980,
    }
}

/// Walks the table of small value sizes, accumulating weight, and returns the
/// first size whose cumulative weight exceeds `point`; `None` for a point in
/// the tail.
pub fn etc_table_size(point: u32) -> (r: Option<usize>)
    ensures
        etc_table_pick(point as nat, r),
        r is Some <==> point < etc_cum(ETC_TABLE_LEN as nat),
{
    proof {
        lemma_etc_table_mass();
    }
    let mut sum: u32 = 0;
    let mut i: usize = 0;
    while i < ETC_TABLE_LEN
        invariant
            i <= ETC_TABLE_LEN,
            sum == etc_cum(i as nat),
            sum <= etc_cum(ETC_TABLE_LEN as nat),
            point >= sum,
            etc_cum(ETC_TABLE_LEN as nat) == 44155,
        decreases ETC_TABLE_LEN - i,
    {
        let w = etc_weight_at(i);
        proof {
            lemma_etc_cum_mono((i + 1) as nat, ETC_TABLE_LEN as nat);
        }
        if point < sum + w {
            return Some(i);
        }
        sum = sum + w;
        i = i + 1;
    }
    None
}

/// The cumulative weight never decreases.
pub proof fn lemma_etc_cum_mono(m: nat, n: nat)
    requires
        m <= n,
    ensures
        etc_cum(m) <= etc_cum(n),
    decreases n - m,
{
    if m < n {
        lemma_etc_cum_mono(m, (n - 1) as nat);
    }
}

/// A key size drawn from the key-size distribution, brought into
/// `[KEY_SIZE, ETC_MAX_KEY_SIZE]`.
pub open spec fn clamp_key_size(draw: usize) -> u16 {
    if draw < KEY_SIZE {
        KEY_SIZE as u16
    } else if draw > ETC_MAX_KEY_SIZE {
        ETC_MAX_KEY_SIZE as u16
    } else {
        draw as u16
    }
}

/// Clamps a drawn key size to `[KEY_SIZE, ETC_MAX_KEY_SIZE]`.
pub fn etc_key_size(draw: usize) -> (r: u16)
    ensures
        r == clamp_key_size(draw),
        KEY_SIZE <= r <= ETC_MAX_KEY_SIZE,
{
    if draw < KEY_SIZE {
        KEY_SIZE as u16
    } else if draw > ETC_MAX_KEY_SIZE {
        ETC_MAX_KEY_SIZE as u16
    } else {
        draw as u16
    }
}

/// The slot of the size table that key identifier `key` uses.
pub open spec fn slot_of(key: u64) -> int {
    (key % (NVALUES as u64)) as int
}

/// Remembers, for each key slot, the key size chosen at its last write (zero
/// before any). One owner passes it to each request it builds, so reads and
/// writes of it are never concurrent.
pub struct KeySizeMemory {
    sizes: Vec<u16>,
}

impl View for KeySizeMemory {
    type V = Seq<u16>;

    closed spec fn view(&self) -> Seq<u16> {
        self.sizes@
    }
}

impl KeySizeMemory {
    /// One slot per key, and no slot above the largest key size.
    pub open spec fn wf(&self) -> bool {
        &&& self@.len() == NVALUES
        &&& forall|i: int| 0 <= i < self@.len() ==> self@[i] <= ETC_MAX_KEY_SIZE
    }

    /// A table with every slot at zero.
    pub fn new() -> (r: KeySizeMemory)
        ensures
            r.wf(),
            r@ == Seq::new(NVALUES as nat, |i: int| 0u16),
    {
        let mut sizes: Vec<u16> = Vec::new();
        let mut i: usize = 0;
        while i < NVALUES
            invariant
                i <= NVALUES,
                sizes@ == Seq::new(i as nat, |j: int| 0u16),
            decreases NVALUES - i,
        {
            sizes.push(0);
            i = i + 1;
            assert(sizes@ =~= Seq::new(i as nat, |j: int| 0u16));
        }
        KeySizeMemory { sizes }
    }

    /// Records `size` as the key size of `key`'s slot.
    pub fn record_size(&mut self, key: u64, size: u16)
        requires
            old(self).wf(),
            size <= ETC_MAX_KEY_SIZE,
        ensures
            final(self).wf(),
            final(self)@ == old(self)@.update(slot_of(key), size),
    {
        let slot = (key % (NVALUES as u64)) as usize;
        self.sizes.set(slot, size);
    }

    /// The key size last recorded for `key`'s slot, or zero if none was.
    pub fn lookup_size(&self, key: u64) -> (r: u16)
        requires
            self.wf(),
        ensures
            r == self@[slot_of(key)],
            r <= ETC_MAX_KEY_SIZE,
    {
        self.sizes[(key % (NVALUES as u64)) as usize]
    }
}

} // verus!
