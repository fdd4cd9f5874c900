use vstd::prelude::*;

verus! {

/// The one way a memory access fails: the process is gone, a link of the
/// pointer chain leads nowhere, or the read comes up short. Callers treat
/// every cause alike: the value is unavailable for now.
#[derive(Debug, Clone, Copy, PartialEq, Eq, Structural)]
pub struct MemoryError;

/// Where a value lives: a base address and a chain of pointer offsets. With
/// no offsets the value is at the base itself. Otherwise the chain is walked
/// left to right: read the 32-bit pointer at the current address, add the
/// next offset, repeat; where the last offset lands is the value.
#[derive(Debug, Clone, PartialEq, Eq)]
pub struct Address {
    pub base: usize,
    pub offsets: Vec<usize>,
}

impl Address {
    /// The value at `base` itself.
    pub fn direct(base: usize) -> (r: Self)
        ensures
            r.base == base,
            r.offsets@ == Seq::<usize>::empty(),
    {
        Address { base, offsets: Vec::new() }
    }

    /// The value reached from `base` through `offsets`.
    pub fn chain(base: usize, offsets: Vec<usize>) -> (r: Self)
        ensures
            r.base == base,
            r.offsets@ == offsets@,
    {
        Address { base, offsets }
    }
}

/// `s` with every NUL character at either end removed.
pub open spec fn strip_nul(s: Seq<char>) -> Seq<char>
    decreases s.len(),
{
    if s.len() > 0 && s[0] == '\0' {
        strip_nul(s.drop_first())
    } else if s.len() > 0 && s.last() == '\0' {
        strip_nul(s.drop_last())
    } else {
        s
    }
}

/// Relies on `str::trim_matches` with a `char` pattern: it removes every
/// leading and trailing match, and nothing else.
#[verifier::external_body]
fn trim_nul(s: &str) -> (r: &str)
    ensures
        r@ == strip_nul(s@),
{
    s.trim_matches('\0')
}

/// Takes in what a read of a fixed-length name buffer gave: on success the
/// text without its NUL padding becomes `slot`'s content and is handed back;
/// a failure is handed back with `slot` untouched.
pub fn settle_text(slot: &mut String, raw: Result<String, MemoryError>) -> (r: Result<String, MemoryError>)
    ensures
        raw is Ok ==> final(slot)@ == strip_nul(raw->Ok_0@) && r is Ok && r->Ok_0@ == final(slot)@,
        raw is Err ==> *final(slot) == *old(slot) && r == Err::<String, MemoryError>(raw->Err_0),
{
    match raw {
        Ok(text) => {
            *slot = trim_nul(text.as_str()).to_owned();
            Ok(slot.clone())
        },
        Err(e) => Err(e),
    }
}

/// Big-endian value of two bytes.
pub open spec fn be_u16(b: Seq<u8>) -> int {
    b[0] * 256 + b[1]
}

/// Big-endian value of four bytes.
pub open spec fn be_u32(b: Seq<u8>) -> int {
    b[0] * 16777216 + b[1] * 65536 + b[2] * 256 + b[3]
}

/// Big-endian bytes of a 16-bit value.
pub open spec fn u16_bytes(v: u16) -> Seq<u8> {
    seq![(v / 256) as u8, (v % 256) as u8]
}

/// Big-endian bytes of a 32-bit value.
pub open spec fn u32_bytes(v: u32) -> Seq<u8> {
    seq![(v / 16777216) as u8, (v / 65536 % 256) as u8, (v / 256 % 256) as u8, (v % 256) as u8]
}

/// A copy of a span of console memory: `bytes[i]` is the byte at address
/// `start + i`. Pointers in it are console addresses, big-endian, 32 bits.
#[derive(Debug)]
pub struct RamImage {
    pub start: usize,
    pub bytes: Vec<u8>,
}

impl RamImage {
    /// The `n` bytes from address `a` on all lie in the image.
    pub open spec fn holds(self, a: int, n: int) -> bool {
        self.start <= a && a + n <= self.start + self.bytes@.len()
    }

    /// The `n` bytes from address `a` on.
    pub open spec fn span(self, a: int, n: int) -> Seq<u8> {
        self.bytes@.subrange(a - self.start, a - self.start + n)
    }

    /// The pointer stored at `a`.
    pub open spec fn word_at(self, a: int) -> int {
        be_u32(self.span(a, 4))
    }

    /// Where the chain `offsets` leads from `cur`, if every pointer on the way
    /// lies in the image and every address fits the machine's word.
    pub open spec fn resolve_from(self, cur: int, offsets: Seq<usize>) -> Option<int>
        decreases offsets.len(),
    {
        if offsets.len() == 0 {
            Some(cur)
        } else if !self.holds(cur, 4) || self.word_at(cur) + offsets[0] > usize::MAX {
            None
        } else {
            self.resolve_from(self.word_at(cur) + offsets[0], offsets.drop_first())
        }
    }

    /// Where `address` leads.
    pub open spec fn resolve(self, address: Address) -> Option<int> {
        self.resolve_from(address.base as int, address.offsets@)
    }

    /// The `n` bytes that `address` leads to, if they lie in the image.
    pub open spec fn load(self, address: Address, n: int) -> Option<Seq<u8>> {
        match self.resolve(address) {
            Some(a) => if self.holds(a, n) {
                Some(self.span(a, n))
            } else {
                None
            },
            None => None,
        }
    }

    /// A pointer cell that the walk of `offsets` from `cur` reads overlaps the
    /// addresses `lo..hi`.
    pub open spec fn chain_meets_from(self, cur: int, offsets: Seq<usize>, lo: int, hi: int) -> bool
        decreases offsets.len(),
    {
        if offsets.len() == 0 {
            false
        } else if cur < hi && lo < cur + 4 {
            true
        } else if !self.holds(cur, 4) || self.word_at(cur) + offsets[0] > usize::MAX {
            false
        } else {
            self.chain_meets_from(self.word_at(cur) + offsets[0], offsets.drop_first(), lo, hi)
        }
    }

    /// The image after `data` is stored from address `a` on.
    pub open spec fn stored(self, a: int, data: Seq<u8>) -> Seq<u8> {
        Seq::new(
            self.bytes@.len(),
            |i: int|
                if a - self.start <= i < a - self.start + data.len() {
                    data[i - (a - self.start)]
                } else {
                    self.bytes@[i]
                },
        )
    }

    pub fn new(start: usize, bytes: Vec<u8>) -> (r: Self)
        ensures
            r.start == start,
            r.bytes@ == bytes@,
    {
        RamImage { start, bytes }
    }

    /// Index of address `a` in `bytes`, if the `n` bytes from `a` on lie in the image.
    fn index_of(&self, a: usize, n: usize) -> (r: Option<usize>)
        ensures
            match r {
                Some(i) => {
                    &&& self.holds(a as int, n as int)
                    &&& i == a - self.start
                    &&& i + n <= self.bytes@.len() <= usize::MAX
                },
                None => !self.holds(a as int, n as int),
            },
    {
        if a < self.start {
            return None;
        }
        let i = a - self.start;
        if i <= self.bytes.len() && n <= self.bytes.len() - i {
            Some(i)
        } else {
            None
        }
    }

    /// The pointer stored at `a`.
    fn word(&self, a: usize) -> (r: Option<u32>)
        ensures
            match r {
                Some(w) => self.holds(a as int, 4) && w == self.word_at(a as int),
                None => !self.holds(a as int, 4),
            },
    {
        match self.index_of(a, 4) {
            Some(i) => {
                let b0 = self.bytes[i] as u32;
                let b1 = self.bytes[i + 1] as u32;
                let b2 = self.bytes[i + 2] as u32;
                let b3 = self.bytes[i + 3] as u32;
                Some(b0 * 16777216 + b1 * 65536 + b2 * 256 + b3)
            },
            None => None,
        }
    }

    /// Walks the pointer chain of `address` to the address of its value.
    pub fn resolve_address(&self, address: &Address) -> (r: Result<usize, MemoryError>)
        ensures
            match self.resolve(*address) {
                Some(a) => r is Ok && r->Ok_0 == a,
                None => r is Err,
            },
    {
        let mut cur: usize = address.base;
        let mut i: usize = 0;
        proof {
            assert(address.offsets@.skip(0) =~= address.offsets@);
        }
        while i < address.offsets.len()
            invariant
                i <= address.offsets@.len(),
                self.resolve_from(cur as int, address.offsets@.skip(i as int))
                    == self.resolve(*address),
            decreases address.offsets@.len() - i,
        {
            proof {
                assert(address.offsets@.skip(i as int).drop_first() =~= address.offsets@.skip(
                    i as int + 1,
                ));
            }
            let ptr = match self.word(cur) {
                Some(w) => w,
                None => return Err(MemoryError),
            };
            match (ptr as usize).checked_add(address.offsets[i]) {
                Some(next) => cur = next,
                None => return Err(MemoryError),
            }
            i += 1;
        }
        proof {
            assert(address.offsets@.skip(i as int).len() == 0);
        }
        Ok(cur)
    }

    /// Reads the `n` bytes that `address` leads to.
    pub fn read_bytes(&self, address: &Address, n: usize) -> (r: Result<Vec<u8>, MemoryError>)
        ensures
            match self.load(*address, n as int) {
                Some(b) => r is Ok && r->Ok_0@ == b,
                None => r is Err,
            },
    {
        let a = match self.resolve_address(address) {
            Ok(a) => a,
            Err(e) => return Err(e),
        };
        let i = match self.index_of(a, n) {
            Some(i) => i,
            None => return Err(MemoryError),
        };
        let mut out: Vec<u8> = Vec::new();
        let mut j: usize = 0;
        while j < n
            invariant
                j <= n,
                i + n <= self.bytes@.len() <= usize::MAX,
                out@ == self.bytes@.subrange(i as int, i + j),
            decreases n - j,
        {
            out.push(self.bytes[i + j]);
            j += 1;
            proof {
                assert(out@ =~= self.bytes@.subrange(i as int, i + j));
            }
        }
        Ok(out)
    }

    pub fn read_u8(&self, address: &Address) -> (r: Result<u8, MemoryError>)
        ensures
            match self.load(*address, 1) {
                Some(b) => r == Ok::<u8, MemoryError>(b[0]),
                None => r is Err,
            },
    {
        match self.read_bytes(address, 1) {
            Ok(b) => Ok(b[0]),
            Err(e) => Err(e),
        }
    }

    pub fn read_u16(&self, address: &Address) -> (r: Result<u16, MemoryError>)
        ensures
            match self.load(*address, 2) {
                Some(b) => r is Ok && r->Ok_0 == be_u16(b),
                None => r is Err,
            },
    {
        match self.read_bytes(address, 2) {
            Ok(b) => Ok((b[0] as u16) * 256 + (b[1] as u16)),
            Err(e) => Err(e),
        }
    }

    pub fn read_u32(&self, address: &Address) -> (r: Result<u32, MemoryError>)
        ensures
            match self.load(*address, 4) {
                Some(b) => r is Ok && r->Ok_0 == be_u32(b),
                None => r is Err,
            },
    {
        match self.read_bytes(address, 4) {
            Ok(b) => Ok(
                (b[0] as u32) * 16777216 + (b[1] as u32) * 65536 + (b[2] as u32) * 256
                    + (b[3] as u32),
            ),
            Err(e) => Err(e),
        }
    }
    /// Stores `data` where `address` leads.
    pub fn write_bytes(&mut self, address: &Address, data: &Vec<u8>) -> (r: Result<(), MemoryError>)
        ensures
            final(self).start == old(self).start,
            old(self).load(*address, data@.len() as int) is Some ==> {
                &&& r is Ok
                &&& final(self).bytes@ == old(self).stored(
                    old(self).resolve(*address)->Some_0,
                    data@,
                )
            },
            old(self).load(*address, data@.len() as int) is None ==> {
                &&& r is Err
                &&& final(self).bytes@ == old(self).bytes@
            },
    {
        let a = match self.resolve_address(address) {
            Ok(a) => a,
            Err(e) => return Err(e),
        };
        let i = match self.index_of(a, data.len()) {
            Some(i) => i,
            None => return Err(MemoryError),
        };
        let ghost before = self.bytes@;
        let mut j: usize = 0;
        while j < data.len()
            invariant
                j <= data@.len(),
                i + data@.len() <= before.len() <= usize::MAX,
                self.start == old(self).start,
                self.bytes@.len() == before.len(),
                forall|k: int|
                    0 <= k < before.len() ==> #[trigger] self.bytes@[k] == if i <= k < i + j {
                        data@[k - i]
                    } else {
                        before[k]
                    },
            decreases data@.len() - j,
        {
            self.bytes.set(i + j, data[j]);
            j += 1;
        }
        proof {
            assert(self.bytes@ =~= old(self).stored(a as int, data@));
        }
        Ok(())
    }

    /// Stores one byte where `address` leads.
    pub fn write_u8(&mut self, address: &Address, v: u8) -> (r: Result<(), MemoryError>)
        ensures
            final(self).start == old(self).start,
            old(self).load(*address, 1) is Some ==> {
                &&& r is Ok
                &&& final(self).bytes@ == old(self).stored(old(self).resolve(*address)->Some_0, seq![v])
            },
            old(self).load(*address, 1) is None ==> r is Err && final(self).bytes@ == old(self).bytes@,
    {
        let data = vec![v];
        proof {
            assert(data@ =~= seq![v]);
        }
        self.write_bytes(address, &data)
    }

    /// Stores a 16-bit value, big-endian, where `address` leads.
    pub fn write_u16(&mut self, address: &Address, v: u16) -> (r: Result<(), MemoryError>)
        ensures
            final(self).start == old(self).start,
            old(self).load(*address, 2) is Some ==> {
                &&& r is Ok
                &&& final(self).bytes@ == old(self).stored(old(self).resolve(*address)->Some_0, u16_bytes(v))
            },
            old(self).load(*address, 2) is None ==> r is Err && final(self).bytes@ == old(self).bytes@,
    {
        let data = vec![(v / 256) as u8, (v % 256) as u8];
        proof {
            assert(data@ =~= u16_bytes(v));
        }
        self.write_bytes(address, &data)
    }

    /// Stores a 32-bit value, big-endian, where `address` leads.
    pub fn write_u32(&mut self, address: &Address, v: u32) -> (r: Result<(), MemoryError>)
        ensures
            final(self).start == old(self).start,
            old(self).load(*address, 4) is Some ==> {
                &&& r is Ok
                &&& final(self).bytes@ == old(self).stored(old(self).resolve(*address)->Some_0, u32_bytes(v))
            },
            old(self).load(*address, 4) is None ==> r is Err && final(self).bytes@ == old(self).bytes@,
    {
        let data = vec![
            (v / 16777216) as u8,
            (v / 65536 % 256) as u8,
            (v / 256 % 256) as u8,
            (v % 256) as u8,
        ];
        proof {
            assert(data@ =~= u32_bytes(v));
        }
        self.write_bytes(address, &data)
    }
}

/// A walk that reads no pointer cell in `lo..hi` leads to the same place in
/// two images that differ only there.
proof fn lemma_resolve_frame(
    before: RamImage,
    after: RamImage,
    cur: int,
    offsets: Seq<usize>,
    lo: int,
    hi: int,
)
    requires
        after.start == before.start,
        after.bytes@.len() == before.bytes@.len(),
        forall|k: int|
            0 <= k < before.bytes@.len() && !(lo - before.start <= k < hi - before.start)
                ==> #[trigger] after.bytes@[k] == before.bytes@[k],
        !before.chain_meets_from(cur, offsets, lo, hi),
    ensures
        after.resolve_from(cur, offsets) == before.resolve_from(cur, offsets),
    decreases offsets.len(),
{
    if offsets.len() > 0 && before.holds(cur, 4) {
        assert(after.span(cur, 4) =~= before.span(cur, 4));
        if before.word_at(cur) + offsets[0] <= usize::MAX {
            lemma_resolve_frame(
                before,
                after,
                before.word_at(cur) + offsets[0],
                offsets.drop_first(),
                lo,
                hi,
            );
        }
    }
}

/// Bytes stored where an address leads are read back from it, unless the
/// store overwrote a pointer that the address's chain passes through.
pub proof fn lemma_write_then_read(
    before: RamImage,
    after: RamImage,
    address: Address,
    data: Seq<u8>,
)
    requires
        before.load(address, data.len() as int) is Some,
        !before.chain_meets_from(
            address.base as int,
            address.offsets@,
            before.resolve(address)->Some_0,
            before.resolve(address)->Some_0 + data.len(),
        ),
        after.start == before.start,
        after.bytes@ == before.stored(before.resolve(address)->Some_0, data),
    ensures
        after.load(address, data.len() as int) == Some(data),
{
    let a = before.resolve(address)->Some_0;
    lemma_resolve_frame(before, after, address.base as int, address.offsets@, a, a + data.len());
    assert(after.span(a, data.len() as int) =~= data);
}

/// The big-endian bytes of a 16-bit value read back as that value.
pub proof fn lemma_u16_bytes(v: u16)
    ensures
        be_u16(u16_bytes(v)) == v,
{
}

/// The big-endian bytes of a 32-bit value read back as that value.
pub proof fn lemma_u32_bytes(v: u32)
    ensures
        be_u32(u32_bytes(v)) == v,
{
}
/// A typed value at an address, with the copy last observed. Each successful
/// read or write replaces the copy; a failed one leaves it as it was.
#[derive(Debug, Clone)]
pub struct MemoryField<T> {
    pub address: Address,
    pub value: T,
}

impl<T: Copy> MemoryField<T> {
    pub fn new(address: Address, value: T) -> (r: Self)
        ensures
            r.address == address,
            r.value == value,
    {
        MemoryField { address, value }
    }

    /// The copy last observed.
    pub fn get(&self) -> (r: T)
        ensures
            r == self.value,
    {
        self.value
    }

    /// Takes in what a read of the field's address gave: a value becomes the
    /// field's copy, a failure is handed back with the copy untouched.
    pub fn settle_read(&mut self, outcome: Result<T, MemoryError>) -> (r: Result<T, MemoryError>)
        ensures
            r == outcome,
            final(self).address == old(self).address,
            final(self).value == match outcome {
                Ok(v) => v,
                Err(_) => old(self).value,
            },
    {
        match outcome {
            Ok(v) => {
                self.value = v;
                Ok(v)
            },
            Err(e) => Err(e),
        }
    }

    /// Takes in what a write of `value` to the field's address gave: on
    /// success `value` becomes the field's copy and is handed back; a failure
    /// is handed back with the copy untouched.
    pub fn settle_write(&mut self, value: T, outcome: Result<(), MemoryError>) -> (r: Result<
        T,
        MemoryError,
    >)
        ensures
            final(self).address == old(self).address,
            outcome is Ok ==> r == Ok::<T, MemoryError>(value) && final(self).value == value,
            outcome is Err ==> r == Err::<T, MemoryError>(outcome->Err_0) && final(self).value
                == old(self).value,
    {
        match outcome {
            Ok(()) => {
                self.value = value;
                Ok(value)
            },
            Err(e) => Err(e),
        }
    }
}

impl MemoryField<u8> {
    /// Reads the field from `ram`.
    pub fn read(&mut self, ram: &RamImage) -> (r: Result<u8, MemoryError>)
        ensures
            final(self).address == old(self).address,
            match ram.load(old(self).address, 1) {
                Some(b) => r == Ok::<u8, MemoryError>(b[0]) && final(self).value == b[0],
                None => r is Err && final(self).value == old(self).value,
            },
    {
        let outcome = ram.read_u8(&self.address);
        self.settle_read(outcome)
    }

    /// Writes `value` to the field in `ram`.
    pub fn write(&mut self, value: u8, ram: &mut RamImage) -> (r: Result<u8, MemoryError>)
        ensures
            final(self).address == old(self).address,
            final(ram).start == old(ram).start,
            old(ram).load(old(self).address, 1) is Some ==> {
                &&& r == Ok::<u8, MemoryError>(value)
                &&& final(self).value == value
                &&& final(ram).bytes@ == old(ram).stored(
                    old(ram).resolve(old(self).address)->Some_0,
                    seq![value],
                )
            },
            old(ram).load(old(self).address, 1) is None ==> {
                &&& r is Err
                &&& final(self).value == old(self).value
                &&& final(ram).bytes@ == old(ram).bytes@
            },
    {
        let outcome = ram.write_u8(&self.address, value);
        self.settle_write(value, outcome)
    }
}

impl MemoryField<u16> {
    /// Reads the field from `ram`.
    pub fn read(&mut self, ram: &RamImage) -> (r: Result<u16, MemoryError>)
        ensures
            final(self).address == old(self).address,
            match ram.load(old(self).address, 2) {
                Some(b) => r is Ok && r->Ok_0 == be_u16(b) && final(self).value == be_u16(b),
                None => r is Err && final(self).value == old(self).value,
            },
    {
        let outcome = ram.read_u16(&self.address);
        self.settle_read(outcome)
    }

    /// Writes `value` to the field in `ram`.
    pub fn write(&mut self, value: u16, ram: &mut RamImage) -> (r: Result<u16, MemoryError>)
        ensures
            final(self).address == old(self).address,
            final(ram).start == old(ram).start,
            old(ram).load(old(self).address, 2) is Some ==> {
                &&& r == Ok::<u16, MemoryError>(value)
                &&& final(self).value == value
                &&& final(ram).bytes@ == old(ram).stored(
                    old(ram).resolve(old(self).address)->Some_0,
                    u16_bytes(value),
                )
            },
            old(ram).load(old(self).address, 2) is None ==> {
                &&& r is Err
                &&& final(self).value == old(self).value
                &&& final(ram).bytes@ == old(ram).bytes@
            },
    {
        let outcome = ram.write_u16(&self.address, value);
        self.settle_write(value, outcome)
    }
}

impl MemoryField<u32> {
    /// Reads the field from `ram`.
    pub fn read(&mut self, ram: &RamImage) -> (r: Result<u32, MemoryError>)
        ensures
            final(self).address == old(self).address,
            match ram.load(old(self).address, 4) {
                Some(b) => r is Ok && r->Ok_0 == be_u32(b) && final(self).value == be_u32(b),
                None => r is Err && final(self).value == old(self).value,
            },
    {
        let outcome = ram.read_u32(&self.address);
        self.settle_read(outcome)
    }

    /// Writes `value` to the field in `ram`.
    pub fn write(&mut self, value: u32, ram: &mut RamImage) -> (r: Result<u32, MemoryError>)
        ensures
            final(self).address == old(self).address,
            final(ram).start == old(ram).start,
            old(ram).load(old(self).address, 4) is Some ==> {
                &&& r == Ok::<u32, MemoryError>(value)
                &&& final(self).value == value
                &&& final(ram).bytes@ == old(ram).stored(
                    old(ram).resolve(old(self).address)->Some_0,
                    u32_bytes(value),
                )
            },
            old(ram).load(old(self).address, 4) is None ==> {
                &&& r is Err
                &&& final(self).value == old(self).value
                &&& final(ram).bytes@ == old(ram).bytes@
            },
    {
        let outcome = ram.write_u32(&self.address, value);
        self.settle_write(value, outcome)
    }
}

/// Writing `v` to a 32-bit field and reading the field right after gives `v`
/// back, when nothing else touched the image in between and the write did
/// not land on a pointer that the field's own chain passes through.
pub proof fn lemma_field_round_trip(before: RamImage, after: RamImage, address: Address, v: u32)
    requires
        before.load(address, 4) is Some,
        !before.chain_meets_from(
            address.base as int,
            address.offsets@,
            before.resolve(address)->Some_0,
            before.resolve(address)->Some_0 + 4,
        ),
        after.start == before.start,
        after.bytes@ == before.stored(before.resolve(address)->Some_0, u32_bytes(v)),
    ensures
        after.load(address, 4) is Some,
        be_u32(after.load(address, 4)->Some_0) == v,
{
    lemma_write_then_read(before, after, address, u32_bytes(v));
    lemma_u32_bytes(v);
}

} // verus!
