//! Decoding the result of an evaluated snippet from its memory, with the
//! interpretation supplied by a caller that knows the result's type.
use crate::memory::{
    bytes_at, in_bounds, le_value, signed_value, word, word_at, ExpectMemory,
};
use vstd::prelude::*;

verus! {

broadcast use vstd::layout::layout_of_primitives;

/// Bytes in the slot of a string result on a 64-bit target.
pub const STR_RESULT_BYTES: usize = 24;

/// A value of fixed size that can be read from foreign memory.
pub trait FromMemory: Sized {
    /// Bytes the value occupies.
    spec fn width() -> nat;

    /// The value that the bytes of `mem` at `addr` hold.
    spec fn decoded(mem: Seq<u8>, addr: int) -> Self;

    fn read_from(memory: &ExpectMemory, addr: usize) -> (r: Self)
        requires
            in_bounds(memory@, addr as int, Self::width()),
        ensures
            r == Self::decoded(memory@, addr as int),
    ;
}

impl FromMemory for bool {
    open spec fn width() -> nat {
        1
    }

    open spec fn decoded(mem: Seq<u8>, addr: int) -> bool {
        mem[addr] != 0
    }

    fn read_from(memory: &ExpectMemory, addr: usize) -> (r: bool) {
        memory.deref_bool(addr)
    }
}

impl FromMemory for u8 {
    open spec fn width() -> nat {
        1
    }

    open spec fn decoded(mem: Seq<u8>, addr: int) -> u8 {
        le_value(bytes_at(mem, addr, 1)) as u8
    }

    fn read_from(memory: &ExpectMemory, addr: usize) -> (r: u8) {
        memory.deref_u8(addr)
    }
}

impl FromMemory for u16 {
    open spec fn width() -> nat {
        2
    }

    open spec fn decoded(mem: Seq<u8>, addr: int) -> u16 {
        le_value(bytes_at(mem, addr, 2)) as u16
    }

    fn read_from(memory: &ExpectMemory, addr: usize) -> (r: u16) {
        memory.deref_u16(addr)
    }
}

impl FromMemory for u32 {
    open spec fn width() -> nat {
        4
    }

    open spec fn decoded(mem: Seq<u8>, addr: int) -> u32 {
        le_value(bytes_at(mem, addr, 4)) as u32
    }

    fn read_from(memory: &ExpectMemory, addr: usize) -> (r: u32) {
        memory.deref_u32(addr)
    }
}

impl FromMemory for u64 {
    open spec fn width() -> nat {
        8
    }

    open spec fn decoded(mem: Seq<u8>, addr: int) -> u64 {
        le_value(bytes_at(mem, addr, 8)) as u64
    }

    fn read_from(memory: &ExpectMemory, addr: usize) -> (r: u64) {
        memory.deref_u64(addr)
    }
}

impl FromMemory for u128 {
    open spec fn width() -> nat {
        16
    }

    open spec fn decoded(mem: Seq<u8>, addr: int) -> u128 {
        le_value(bytes_at(mem, addr, 16)) as u128
    }

    fn read_from(memory: &ExpectMemory, addr: usize) -> (r: u128) {
        memory.deref_u128(addr)
    }
}

impl FromMemory for usize {
    open spec fn width() -> nat {
        word()
    }

    open spec fn decoded(mem: Seq<u8>, addr: int) -> usize {
        word_at(mem, addr) as usize
    }

    fn read_from(memory: &ExpectMemory, addr: usize) -> (r: usize) {
        memory.deref_usize(addr)
    }
}

impl FromMemory for i8 {
    open spec fn width() -> nat {
        1
    }

    open spec fn decoded(mem: Seq<u8>, addr: int) -> i8 {
        signed_value(bytes_at(mem, addr, 1)) as i8
    }

    fn read_from(memory: &ExpectMemory, addr: usize) -> (r: i8) {
        memory.deref_i8(addr)
    }
}

impl FromMemory for i16 {
    open spec fn width() -> nat {
        2
    }

    open spec fn decoded(mem: Seq<u8>, addr: int) -> i16 {
        signed_value(bytes_at(mem, addr, 2)) as i16
    }

    fn read_from(memory: &ExpectMemory, addr: usize) -> (r: i16) {
        memory.deref_i16(addr)
    }
}

impl FromMemory for i32 {
    open spec fn width() -> nat {
        4
    }

    open spec fn decoded(mem: Seq<u8>, addr: int) -> i32 {
        signed_value(bytes_at(mem, addr, 4)) as i32
    }

    fn read_from(memory: &ExpectMemory, addr: usize) -> (r: i32) {
        memory.deref_i32(addr)
    }
}

impl FromMemory for i64 {
    open spec fn width() -> nat {
        8
    }

    open spec fn decoded(mem: Seq<u8>, addr: int) -> i64 {
        signed_value(bytes_at(mem, addr, 8)) as i64
    }

    fn read_from(memory: &ExpectMemory, addr: usize) -> (r: i64) {
        memory.deref_i64(addr)
    }
}

impl FromMemory for i128 {
    open spec fn width() -> nat {
        16
    }

    open spec fn decoded(mem: Seq<u8>, addr: int) -> i128 {
        signed_value(bytes_at(mem, addr, 16)) as i128
    }

    fn read_from(memory: &ExpectMemory, addr: usize) -> (r: i128) {
        memory.deref_i128(addr)
    }
}

impl FromMemory for isize {
    open spec fn width() -> nat {
        word()
    }

    open spec fn decoded(mem: Seq<u8>, addr: int) -> isize {
        signed_value(bytes_at(mem, addr, word())) as isize
    }

    fn read_from(memory: &ExpectMemory, addr: usize) -> (r: isize) {
        memory.deref_isize(addr)
    }
}

/// A list result: its elements' offset, its length and its capacity, one word each.
impl FromMemory for (usize, usize, usize) {
    open spec fn width() -> nat {
        3 * word()
    }

    open spec fn decoded(mem: Seq<u8>, addr: int) -> (usize, usize, usize) {
        (
            word_at(mem, addr) as usize,
            word_at(mem, addr + word()) as usize,
            word_at(mem, addr + 2 * word()) as usize,
        )
    }

    fn read_from(memory: &ExpectMemory, addr: usize) -> (r: (usize, usize, usize)) {
        let w = core::mem::size_of::<usize>();
        let n = memory.len();
        let offset = memory.deref_usize(addr);
        let length = memory.deref_usize(addr + w);
        let capacity = memory.deref_usize(addr + 2 * w);
        (offset, length, capacity)
    }
}

/// The result of an evaluated snippet: the memory it ran in, and the offset of its value there.
pub struct ExpectReplApp<'a> {
    pub memory: &'a ExpectMemory,
    pub offset: usize,
}

impl<'a> ExpectReplApp<'a> {
    pub fn new(memory: &'a ExpectMemory, offset: usize) -> (r: Self)
        ensures
            r.memory == memory,
            r.offset == offset,
    {
        ExpectReplApp { memory, offset }
    }

    /// Reads the result as a `Return` and hands it, with the memory, to `transform`.
    pub fn call_function<Return: FromMemory, T, F: Fn(&'a ExpectMemory, Return) -> T>(
        &mut self,
        _main_fn_name: &str,
        transform: F,
    ) -> (r: T)
        requires
            in_bounds(old(self).memory@, old(self).offset as int, Return::width()),
            transform.requires(
                (old(self).memory, Return::decoded(old(self).memory@, old(self).offset as int)),
            ),
        ensures
            *final(self) == *old(self),
            transform.ensures(
                (old(self).memory, Return::decoded(old(self).memory@, old(self).offset as int)),
                r,
            ),
    {
        let result = Return::read_from(self.memory, self.offset);
        transform(self.memory, result)
    }

    /// Reads the result as a list's offset, length and capacity, and hands them to `transform`.
    pub fn call_function_returns_roc_list<T, F: Fn(&'a ExpectMemory, (usize, usize, usize)) -> T>(
        &mut self,
        main_fn_name: &str,
        transform: F,
    ) -> (r: T)
        requires
            in_bounds(old(self).memory@, old(self).offset as int, 3 * word()),
            transform.requires(
                (
                    old(self).memory,
                    <(usize, usize, usize)>::decoded(old(self).memory@, old(self).offset as int),
                ),
            ),
        ensures
            *final(self) == *old(self),
            transform.ensures(
                (
                    old(self).memory,
                    <(usize, usize, usize)>::decoded(old(self).memory@, old(self).offset as int),
                ),
                r,
            ),
    {
        self.call_function(main_fn_name, transform)
    }

    /// Hands the offset of a string result to `transform`, which decodes it.
    pub fn call_function_returns_roc_str<T, F: Fn(&'a ExpectMemory, usize) -> T>(
        &mut self,
        main_fn_name: &str,
        transform: F,
    ) -> (r: T)
        requires
            transform.requires((old(self).memory, old(self).offset)),
        ensures
            *final(self) == *old(self),
            transform.ensures((old(self).memory, old(self).offset), r),
    {
        self.call_function_dynamic_size(main_fn_name, STR_RESULT_BYTES, transform)
    }

    /// Hands the offset of a result of `_ret_bytes` bytes to `transform`,
    /// unchanged, without reading the memory.
    pub fn call_function_dynamic_size<T, F: Fn(&'a ExpectMemory, usize) -> T>(
        &mut self,
        _main_fn_name: &str,
        _ret_bytes: usize,
        transform: F,
    ) -> (r: T)
        requires
            transform.requires((old(self).memory, old(self).offset)),
        ensures
            *final(self) == *old(self),
            transform.ensures((old(self).memory, old(self).offset), r),
    {
        transform(self.memory, self.offset)
    }
}

} // verus!
