//! A read-only view over the memory of an evaluated program, with typed reads
//! at byte offsets that need not be aligned. Multi-byte values are little-endian.
use vstd::prelude::*;

verus! {

broadcast use vstd::layout::layout_of_primitives;

/// `256` to the power `n`: one past the largest value that `n` bytes hold.
pub open spec fn pow256(n: nat) -> nat
    decreases n,
{
    if n == 0 {
        1
    } else {
        256 * pow256((n - 1) as nat)
    }
}

/// The unsigned value of the bytes `s`, least significant byte first.
pub open spec fn le_value(s: Seq<u8>) -> nat
    decreases s.len(),
{
    if s.len() == 0 {
        0
    } else {
        s[0] as nat + 256 * le_value(s.drop_first())
    }
}

/// The two's complement value of the bytes `s`, least significant byte first:
/// the sign is the top bit of the last byte.
pub open spec fn signed_value(s: Seq<u8>) -> int {
    if s.len() > 0 && s.last() >= 128 {
        le_value(s) - pow256(s.len())
    } else {
        le_value(s) as int
    }
}

/// The `n` bytes that hold `v`, least significant byte first.
pub open spec fn le_bytes(v: nat, n: nat) -> Seq<u8>
    decreases n,
{
    if n == 0 {
        Seq::empty()
    } else {
        seq![(v % 256) as u8] + le_bytes(v / 256, (n - 1) as nat)
    }
}

/// Bytes in a machine word of the evaluated program.
pub open spec fn word() -> nat {
    vstd::layout::size_of::<usize>()
}

/// The `n` bytes of `mem` from `addr`.
pub open spec fn bytes_at(mem: Seq<u8>, addr: int, n: nat) -> Seq<u8> {
    mem.subrange(addr, addr + n)
}

pub open spec fn in_bounds(mem: Seq<u8>, addr: int, n: nat) -> bool {
    0 <= addr && addr + n <= mem.len()
}

/// The unsigned word at `addr`.
pub open spec fn word_at(mem: Seq<u8>, addr: int) -> nat {
    le_value(bytes_at(mem, addr, word()))
}

/// Bytes in the slot of a string: three machine words.
pub open spec fn str_slot() -> nat {
    3 * word()
}

/// The highest-addressed byte of the string slot at `addr`.
pub open spec fn str_tag(mem: Seq<u8>, addr: int) -> u8 {
    mem[addr + str_slot() - 1]
}

/// A string slot whose last byte is negative as an `i8` holds the string inline.
pub open spec fn is_small_str(mem: Seq<u8>, addr: int) -> bool {
    str_tag(mem, addr) >= 128
}

/// The length of an inline string: the low seven bits of its last byte.
pub open spec fn small_str_len(mem: Seq<u8>, addr: int) -> int {
    str_tag(mem, addr) - 128
}

/// The string slot at `addr` lies in `mem`, and so do the bytes it points to.
pub open spec fn str_readable(mem: Seq<u8>, addr: int) -> bool {
    &&& in_bounds(mem, addr, str_slot())
    &&& if is_small_str(mem, addr) {
        small_str_len(mem, addr) < str_slot()
    } else {
        word_at(mem, addr) + word_at(mem, addr + word()) <= mem.len()
    }
}

/// The bytes of the string whose slot is at `addr`: inline, or at the offset and
/// of the length that the slot's first two words give (its third word, the
/// capacity, plays no part).
pub open spec fn decoded_str(mem: Seq<u8>, addr: int) -> Seq<u8> {
    if is_small_str(mem, addr) {
        mem.subrange(addr, addr + small_str_len(mem, addr))
    } else {
        bytes_at(mem, word_at(mem, addr) as int, word_at(mem, addr + word()))
    }
}

/// The slot of a string of fewer than `str_slot()` bytes, held inline: its
/// bytes, zeros, and last its length with the top bit set.
pub open spec fn small_str_slot(text: Seq<u8>) -> Seq<u8> {
    text + Seq::new((str_slot() - 1 - text.len()) as nat, |i: int| 0u8) + seq![(128 + text.len()) as u8]
}

/// The slot of a string held out of line: offset, length and capacity, one word each.
pub open spec fn large_str_slot(offset: nat, len: nat, capacity: nat) -> Seq<u8> {
    le_bytes(offset, word()) + le_bytes(len, word()) + le_bytes(capacity, word())
}

pub proof fn lemma_pow256_values()
    ensures
        pow256(1) == 0x100,
        pow256(2) == 0x1_0000,
        pow256(4) == 0x1_0000_0000,
        pow256(8) == 0x1_0000_0000_0000_0000,
        pow256(16) == 0x1_0000_0000_0000_0000_0000_0000_0000_0000,
{
    reveal_with_fuel(pow256, 17);
}

pub proof fn lemma_pow256_mono(m: nat, n: nat)
    requires
        m <= n,
    ensures
        pow256(m) <= pow256(n),
    decreases n,
{
    if m < n {
        lemma_pow256_mono(m, (n - 1) as nat);
    }
}

pub proof fn lemma_le_value_bound(s: Seq<u8>)
    ensures
        le_value(s) < pow256(s.len()),
    decreases s.len(),
{
    if s.len() > 0 {
        lemma_le_value_bound(s.drop_first());
        let a = s[0] as nat;
        let b = le_value(s.drop_first());
        let p = pow256((s.len() - 1) as nat);
        assert(a + 256 * b < 256 * p) by (nonlinear_arith)
            requires
                a < 256,
                b < p,
        ;
    }
}

/// The last byte of `s` weighs `256` to the power of the bytes before it.
pub proof fn lemma_le_value_last(s: Seq<u8>)
    requires
        s.len() > 0,
    ensures
        le_value(s) == le_value(s.drop_last()) + s.last() * pow256((s.len() - 1) as nat),
    decreases s.len(),
{
    let n = s.len();
    if n > 1 {
        let t = s.drop_first();
        lemma_le_value_last(t);
        assert(s.drop_last().drop_first() =~= t.drop_last());
        assert(s.drop_last()[0] == s[0]);
        assert(t.last() == s.last());
        let p = pow256((n - 2) as nat);
        assert(pow256((n - 1) as nat) == 256 * p);
        let x = le_value(t.drop_last());
        let l = s.last() as nat;
        assert(le_value(s) == s[0] + 256 * le_value(t));
        assert(le_value(t) == x + l * p);
        assert(le_value(s.drop_last()) == s[0] + 256 * x);
        assert(256 * (x + l * p) == 256 * x + l * (256 * p)) by (nonlinear_arith);
        assert(le_value(s) == le_value(s.drop_last()) + l * pow256((n - 1) as nat));
        assert(le_value(s) == le_value(s.drop_last()) + s.last() * pow256((s.len() - 1) as nat));
    } else {
        assert(s.drop_first().len() == 0);
        assert(s.drop_last().len() == 0);
        assert(le_value(s) == s[0] + 256 * le_value(s.drop_first()));
        assert(pow256(0) == 1);
        assert(s.last() == s[0]);
        assert(le_value(s.drop_first()) == 0);
        assert(le_value(s.drop_last()) == 0);
        assert(s.last() * pow256(0) == s.last());
        assert(le_value(s) == le_value(s.drop_last()) + s.last() * pow256((s.len() - 1) as nat));
    }
}

/// Writing `v` as `n` little-endian bytes and reading them back gives `v`.
pub proof fn lemma_le_bytes_round_trip(v: nat, n: nat)
    requires
        v < pow256(n),
    ensures
        le_bytes(v, n).len() == n,
        le_value(le_bytes(v, n)) == v,
    decreases n,
{
    if n > 0 {
        let p = pow256((n - 1) as nat);
        assert(v / 256 < p) by (nonlinear_arith)
            requires
                v < 256 * p,
        ;
        lemma_le_bytes_round_trip(v / 256, (n - 1) as nat);
        let s = le_bytes(v, n);
        assert(s.drop_first() =~= le_bytes(v / 256, (n - 1) as nat));
        assert(v == v % 256 + 256 * (v / 256)) by (nonlinear_arith);
    }
}

/// A value written as `n` little-endian bytes at `addr` is read back unchanged,
/// whatever the alignment of `addr`.
pub proof fn lemma_read_after_write(mem: Seq<u8>, addr: int, v: nat, n: nat)
    requires
        in_bounds(mem, addr, n),
        v < pow256(n),
        bytes_at(mem, addr, n) == le_bytes(v, n),
    ensures
        le_value(bytes_at(mem, addr, n)) == v,
{
    lemma_le_bytes_round_trip(v, n);
}

/// A signed value written in two's complement as `n` little-endian bytes at
/// `addr` is read back unchanged, whatever the alignment of `addr`.
pub proof fn lemma_read_after_write_signed(mem: Seq<u8>, addr: int, x: int, n: nat)
    requires
        n >= 1,
        in_bounds(mem, addr, n),
        -(pow256(n) / 2) <= x < pow256(n) / 2,
        bytes_at(mem, addr, n) == le_bytes(
            (if x < 0 {
                x + pow256(n)
            } else {
                x
            }) as nat,
            n,
        ),
    ensures
        signed_value(bytes_at(mem, addr, n)) == x,
{
    let u = (if x < 0 {
        x + pow256(n)
    } else {
        x
    }) as nat;
    let s = le_bytes(u, n);
    assert(pow256(n) == 256 * pow256((n - 1) as nat));
    lemma_le_bytes_round_trip(u, n);
    lemma_le_value_last(s);
    lemma_le_value_bound(s.drop_last());
    let q = pow256((n - 1) as nat);
    let y = le_value(s.drop_last());
    let l = s.last() as nat;
    assert(u == y + l * q);
    assert(y < q);
    if x < 0 {
        assert(u >= 128 * q);
        assert(l >= 128) by (nonlinear_arith)
            requires
                u == y + l * q,
                y < q,
                u >= 128 * q,
        ;
    } else {
        assert(u < 128 * q);
        assert(l < 128) by (nonlinear_arith)
            requires
                u == y + l * q,
                u < 128 * q,
                q > 0,
        ;
    }
}

/// A string of fewer than `str_slot()` bytes, written inline, decodes to itself.
pub proof fn lemma_small_str_round_trip(mem: Seq<u8>, addr: int, text: Seq<u8>)
    requires
        in_bounds(mem, addr, str_slot()),
        text.len() < str_slot(),
        bytes_at(mem, addr, str_slot()) == small_str_slot(text),
    ensures
        str_readable(mem, addr),
        decoded_str(mem, addr) == text,
{
    let slot = small_str_slot(text);
    let k = str_slot() as int;
    assert(slot.len() == k);
    assert(str_tag(mem, addr) == slot[k - 1]);
    assert(slot[k - 1] == 128 + text.len());
    assert forall|i: int| 0 <= i < text.len() implies mem[addr + i] == text[i] by {
        assert(mem[addr + i] == slot[i]);
    }
    assert(mem.subrange(addr, addr + text.len()) =~= text);
}

/// The last byte of `n` bytes that hold a value below half their range has its top bit clear.
pub proof fn lemma_le_bytes_top_clear(v: nat, n: nat)
    requires
        n >= 1,
        v < pow256(n) / 2,
    ensures
        le_bytes(v, n).last() < 128,
{
    let s = le_bytes(v, n);
    assert(pow256(n) == 256 * pow256((n - 1) as nat));
    lemma_le_bytes_round_trip(v, n);
    lemma_le_value_last(s);
    lemma_le_value_bound(s.drop_last());
    let q = pow256((n - 1) as nat);
    let y = le_value(s.drop_last());
    let l = s.last() as nat;
    assert(l < 128) by (nonlinear_arith)
        requires
            v == y + l * q,
            v < 128 * q,
            q > 0,
    ;
}

/// A string written out of line, with its slot at `addr` holding its offset,
/// its length and a capacity below half the range of a word, decodes to itself.
pub proof fn lemma_large_str_round_trip(
    mem: Seq<u8>,
    addr: int,
    offset: nat,
    capacity: nat,
    text: Seq<u8>,
)
    requires
        in_bounds(mem, addr, str_slot()),
        offset < pow256(word()),
        text.len() < pow256(word()),
        capacity < pow256(word()) / 2,
        bytes_at(mem, addr, str_slot()) == large_str_slot(offset, text.len(), capacity),
        in_bounds(mem, offset as int, text.len()),
        bytes_at(mem, offset as int, text.len()) == text,
    ensures
        str_readable(mem, addr),
        decoded_str(mem, addr) == text,
{
    let w = word();
    let slot = large_str_slot(offset, text.len(), capacity);
    lemma_le_bytes_round_trip(offset, w);
    lemma_le_bytes_round_trip(text.len(), w);
    lemma_le_bytes_round_trip(capacity, w);
    lemma_le_bytes_top_clear(capacity, w);
    let c = le_bytes(capacity, w);
    assert(slot.len() == 3 * w);
    assert(str_tag(mem, addr) == slot[3 * w - 1]);
    assert(slot[3 * w - 1] == c.last());
    assert(bytes_at(mem, addr, w) =~= slot.subrange(0, w as int));
    assert(slot.subrange(0, w as int) =~= le_bytes(offset, w));
    assert(bytes_at(mem, addr + w, w) =~= slot.subrange(w as int, 2 * w as int));
    assert(slot.subrange(w as int, 2 * w as int) =~= le_bytes(text.len(), w));
}

/// The foreign memory: a flat buffer of bytes, read at offsets the caller vouches for.
pub struct ExpectMemory {
    bytes: Vec<u8>,
}

impl View for ExpectMemory {
    type V = Seq<u8>;

    closed spec fn view(&self) -> Seq<u8> {
        self.bytes@
    }
}

impl ExpectMemory {
    pub fn new(bytes: Vec<u8>) -> (r: Self)
        ensures
            r@ == bytes@,
    {
        ExpectMemory { bytes }
    }

    pub fn len(&self) -> (r: usize)
        ensures
            r == self@.len(),
    {
        self.bytes.len()
    }

    /// The unsigned value of the `n` bytes at `addr`.
    fn read_le(&self, addr: usize, n: usize) -> (r: u128)
        requires
            n <= 16,
            in_bounds(self@, addr as int, n as nat),
        ensures
            r == le_value(bytes_at(self@, addr as int, n as nat)),
            r < pow256(n as nat),
    {
        let len = self.bytes.len();
        let mut acc: u128 = 0;
        let mut i: usize = n;
        proof {
            lemma_pow256_values();
            assert(bytes_at(self@, addr as int, n as nat).subrange(n as int, n as int).len() == 0);
        }
        while i > 0
            invariant
                n <= 16,
                i <= n,
                in_bounds(self@, addr as int, n as nat),
                len == self@.len(),
                acc == le_value(self@.subrange(addr + i, addr + n)),
                acc < pow256((n - i) as nat),
                pow256(16) == 0x1_0000_0000_0000_0000_0000_0000_0000_0000,
            decreases i,
        {
            i = i - 1;
            let b = self.bytes[addr + i];
            proof {
                let s = self@.subrange(addr + i, addr + n);
                assert(s.drop_first() =~= self@.subrange(addr + i + 1, addr + n));
                let k = (n - i - 1) as nat;
                lemma_pow256_mono(k + 1, 16);
                assert(acc * 256 + b < 256 * pow256(k)) by (nonlinear_arith)
                    requires
                        acc < pow256(k),
                        b < 256,
                ;
            }
            acc = acc * 256 + b as u128;
        }
        proof {
            assert(self@.subrange(addr as int, addr + n) =~= bytes_at(self@, addr as int, n as nat));
        }
        acc
    }

    /// The two's complement value of the `n` bytes at `addr`.
    fn read_signed(&self, addr: usize, n: usize) -> (r: i128)
        requires
            1 <= n <= 8,
            in_bounds(self@, addr as int, n as nat),
        ensures
            r == signed_value(bytes_at(self@, addr as int, n as nat)),
            -pow256(n as nat) / 2 <= r < pow256(n as nat) / 2,
    {
        let v = self.read_le(addr, n);
        let len = self.bytes.len();
        let last = self.bytes[addr + n - 1];
        let mut p: u128 = 1;
        let mut i: usize = 0;
        proof {
            lemma_pow256_values();
            lemma_pow256_mono(n as nat, 8);
        }
        while i < n
            invariant
                n <= 8,
                i <= n,
                p == pow256(i as nat),
                pow256(n as nat) <= 0x1_0000_0000_0000_0000,
            decreases n - i,
        {
            proof {
                lemma_pow256_mono((i + 1) as nat, n as nat);
            }
            p = p * 256;
            i = i + 1;
        }
        let ghost s = bytes_at(self@, addr as int, n as nat);
        proof {
            lemma_le_value_last(s);
            lemma_le_value_bound(s.drop_last());
            assert(s.last() == last);
            let q = pow256((n - 1) as nat);
            assert(p == pow256(n as nat));
            assert(pow256(n as nat) == 256 * q);
            assert(pow256(n as nat) / 2 == 128 * q);
            let x = le_value(s.drop_last());
            let l = s.last() as nat;
            assert(s.drop_last().len() == n - 1);
            assert(x < q);
            if l >= 128 {
                assert(x + l * q >= 128 * q) by (nonlinear_arith)
                    requires
                        l >= 128,
                ;
            } else {
                assert(x + l * q < 128 * q) by (nonlinear_arith)
                    requires
                        l < 128,
                        x < q,
                ;
            }
        }
        if last >= 128 {
            v as i128 - p as i128
        } else {
            v as i128
        }
    }

    pub fn deref_bool(&self, addr: usize) -> (r: bool)
        requires
            in_bounds(self@, addr as int, 1),
        ensures
            r == (self@[addr as int] != 0),
    {
        self.bytes[addr] != 0
    }

    pub fn deref_u8(&self, addr: usize) -> (r: u8)
        requires
            in_bounds(self@, addr as int, 1),
        ensures
            r == self@[addr as int],
            r == le_value(bytes_at(self@, addr as int, 1)),
    {
        let r = self.read_le(addr, 1);
        proof {
            lemma_pow256_values();
            let s = bytes_at(self@, addr as int, 1);
            assert(s.drop_first().len() == 0);
        }
        r as u8
    }

    pub fn deref_u16(&self, addr: usize) -> (r: u16)
        requires
            in_bounds(self@, addr as int, 2),
        ensures
            r == le_value(bytes_at(self@, addr as int, 2)),
    {
        proof {
            lemma_pow256_values();
        }
        self.read_le(addr, 2) as u16
    }

    pub fn deref_u32(&self, addr: usize) -> (r: u32)
        requires
            in_bounds(self@, addr as int, 4),
        ensures
            r == le_value(bytes_at(self@, addr as int, 4)),
    {
        proof {
            lemma_pow256_values();
        }
        self.read_le(addr, 4) as u32
    }

    pub fn deref_u64(&self, addr: usize) -> (r: u64)
        requires
            in_bounds(self@, addr as int, 8),
        ensures
            r == le_value(bytes_at(self@, addr as int, 8)),
    {
        proof {
            lemma_pow256_values();
        }
        self.read_le(addr, 8) as u64
    }

    pub fn deref_u128(&self, addr: usize) -> (r: u128)
        requires
            in_bounds(self@, addr as int, 16),
        ensures
            r == le_value(bytes_at(self@, addr as int, 16)),
    {
        self.read_le(addr, 16)
    }

    pub fn deref_usize(&self, addr: usize) -> (r: usize)
        requires
            in_bounds(self@, addr as int, word()),
        ensures
            r == word_at(self@, addr as int),
    {
        let w = core::mem::size_of::<usize>();
        proof {
            lemma_pow256_values();
        }
        self.read_le(addr, w) as usize
    }

    pub fn deref_i8(&self, addr: usize) -> (r: i8)
        requires
            in_bounds(self@, addr as int, 1),
        ensures
            r == signed_value(bytes_at(self@, addr as int, 1)),
    {
        proof {
            lemma_pow256_values();
        }
        self.read_signed(addr, 1) as i8
    }

    pub fn deref_i16(&self, addr: usize) -> (r: i16)
        requires
            in_bounds(self@, addr as int, 2),
        ensures
            r == signed_value(bytes_at(self@, addr as int, 2)),
    {
        proof {
            lemma_pow256_values();
        }
        self.read_signed(addr, 2) as i16
    }

    pub fn deref_i32(&self, addr: usize) -> (r: i32)
        requires
            in_bounds(self@, addr as int, 4),
        ensures
            r == signed_value(bytes_at(self@, addr as int, 4)),
    {
        proof {
            lemma_pow256_values();
        }
        self.read_signed(addr, 4) as i32
    }

    pub fn deref_i64(&self, addr: usize) -> (r: i64)
        requires
            in_bounds(self@, addr as int, 8),
        ensures
            r == signed_value(bytes_at(self@, addr as int, 8)),
    {
        proof {
            lemma_pow256_values();
        }
        self.read_signed(addr, 8) as i64
    }

    pub fn deref_isize(&self, addr: usize) -> (r: isize)
        requires
            in_bounds(self@, addr as int, word()),
        ensures
            r == signed_value(bytes_at(self@, addr as int, word())),
    {
        let w = core::mem::size_of::<usize>();
        proof {
            lemma_pow256_values();
        }
        self.read_signed(addr, w) as isize
    }

    pub fn deref_i128(&self, addr: usize) -> (r: i128)
        requires
            in_bounds(self@, addr as int, 16),
        ensures
            r == signed_value(bytes_at(self@, addr as int, 16)),
    {
        let n = self.bytes.len();
        let v = self.read_le(addr, 16);
        let last = self.bytes[addr + 15];
        let ghost s = bytes_at(self@, addr as int, 16);
        proof {
            lemma_pow256_values();
            lemma_le_value_last(s);
            lemma_le_value_bound(s.drop_last());
            assert(s.last() == last);
            let q = pow256(15);
            assert(pow256(16) == 256 * q);
            let x = le_value(s.drop_last());
            let l = s.last() as nat;
            if l >= 128 {
                assert(x + l * q >= 128 * q) by (nonlinear_arith)
                    requires
                        l >= 128,
                ;
            } else {
                assert(x + l * q < 128 * q) by (nonlinear_arith)
                    requires
                        l < 128,
                        x < q,
                ;
            }
        }
        if last >= 128 {
            -((u128::MAX - v) as i128) - 1
        } else {
            v as i128
        }
    }

    /// The bytes of the string whose slot is at `addr`, inline or out of line.
    pub fn deref_str(&self, addr: usize) -> (r: &[u8])
        requires
            str_readable(self@, addr as int),
        ensures
            r@ == decoded_str(self@, addr as int),
    {
        let n = self.bytes.len();
        let w = core::mem::size_of::<usize>();
        let width = 3 * w;
        let last_byte_addr = addr + width - 1;
        let last_byte = self.deref_i8(last_byte_addr);
        let tag = self.bytes[last_byte_addr];
        proof {
            let s = bytes_at(self@, last_byte_addr as int, 1);
            assert(s.last() == tag);
            assert(s.drop_first().len() == 0);
            assert(le_value(s.drop_first()) == 0);
            assert(s[0] == tag);
            assert(le_value(s) == tag);
        }
        let is_small = last_byte < 0;
        if is_small {
            let len = (tag - 128) as usize;
            vstd::slice::slice_subrange(self.bytes.as_slice(), addr, addr + len)
        } else {
            let offset = self.deref_usize(addr);
            let length = self.deref_usize(addr + w);
            let _capacity = self.deref_usize(addr + 2 * w);
            vstd::slice::slice_subrange(self.bytes.as_slice(), offset, offset + length)
        }
    }

    /// The bytes of the string whose slot is at `addr`, or `None` when the slot,
    /// or the bytes it points to, do not lie in the memory.
    pub fn deref_str_checked(&self, addr: usize) -> (r: Option<&[u8]>)
        ensures
            r is Some <==> str_readable(self@, addr as int),
            r matches Some(b) ==> b@ == decoded_str(self@, addr as int),
    {
        let n = self.bytes.len();
        let w = core::mem::size_of::<usize>();
        let width = 3 * w;
        if addr > n || width > n - addr {
            return None;
        }
        let tag = self.bytes[addr + width - 1];
        if tag >= 128 {
            if (tag - 128) as usize >= width {
                return None;
            }
        } else {
            let offset = self.deref_usize(addr);
            let length = self.deref_usize(addr + w);
            if offset > n || length > n - offset {
                return None;
            }
        }
        Some(self.deref_str(addr))
    }
}

} // verus!
