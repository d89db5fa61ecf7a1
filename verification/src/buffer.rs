//! The fixed-capacity store and its two mutations: the bounded in-place
//! write and the growth-only reallocation.
//!
//! Nothing here hands out the whole content: a caller touches only the bytes
//! it names, so the working memory of an operation does not depend on how
//! large the store has become.

use vstd::prelude::*;
use crate::error::StoreError;
use crate::limits::MAX_ALLOCATION;

verus! {

/// A persisted region of bytes. Every byte of its capacity is content,
/// segmented by offsets that the caller manages. The content is reached
/// byte by byte or range by range, never as a whole.
#[derive(Debug)]
pub struct DataHolder {
    long_string: Vec<u8>,
}

impl View for DataHolder {
    type V = Seq<u8>;

    closed spec fn view(&self) -> Seq<u8> {
        self.long_string@
    }
}

/// The content after `bytes` has been copied over `data` from `offset` on.
pub open spec fn overwrite(data: Seq<u8>, offset: int, bytes: Seq<u8>) -> Seq<u8> {
    Seq::new(
        data.len(),
        |i: int|
            if offset <= i < offset + bytes.len() {
                bytes[i - offset]
            } else {
                data[i]
            },
    )
}

/// `n` zero bytes.
pub open spec fn zeroed(n: nat) -> Seq<u8> {
    Seq::new(n, |i: int| 0u8)
}

/// `data` followed by zero bytes up to the length `new_len`.
pub open spec fn zero_extend(data: Seq<u8>, new_len: nat) -> Seq<u8> {
    Seq::new(
        new_len,
        |i: int|
            if i < data.len() {
                data[i]
            } else {
                0u8
            },
    )
}

/// Whether the range that starts at `offset` and is `len` bytes long lies
/// inside a store of `capacity` bytes.
pub open spec fn in_bounds(capacity: nat, offset: nat, len: nat) -> bool {
    offset + len <= capacity
}

/// Copies `bytes` over `data` from `offset` on, byte by byte and in place,
/// and touches no other byte. A range that does not lie inside `data` is
/// refused and `data` is left as it was.
///
/// Beyond its arguments this takes a constant amount of working memory,
/// whatever the length of `data`.
pub fn write_in_place(data: &mut [u8], offset: usize, bytes: &[u8]) -> (r: Result<(), StoreError>)
    ensures
        in_bounds(old(data)@.len(), offset as nat, bytes@.len()) ==> r is Ok && final(data)@
            == overwrite(old(data)@, offset as int, bytes@),
        !in_bounds(old(data)@.len(), offset as nat, bytes@.len()) ==> r == Err::<(), StoreError>(
            StoreError::OutOfBounds,
        ) && final(data)@ == old(data)@,
{
    let capacity: usize = data.len();
    let len: usize = bytes.len();
    if offset > capacity || len > capacity - offset {
        return Err(StoreError::OutOfBounds);
    }
    let mut i: usize = 0;
    while i < len
        invariant
            i <= len,
            len == bytes@.len(),
            offset + len <= capacity,
            data@.len() == capacity,
            data@ == overwrite(old(data)@, offset as int, bytes@.subrange(0, i as int)),
        decreases len - i,
    {
        data[offset + i] = bytes[i];
        i = i + 1;
        assert(data@ =~= overwrite(old(data)@, offset as int, bytes@.subrange(0, i as int)));
    }
    assert(bytes@.subrange(0, len as int) =~= bytes@);
    Ok(())
}

impl DataHolder {
    /// The number of bytes persistently reserved.
    pub open spec fn spec_capacity(&self) -> nat {
        self@.len()
    }

    /// Reserves `capacity` zero bytes, unless that is more than the host
    /// grants in one allocation.
    pub fn init(capacity: usize) -> (r: Result<DataHolder, StoreError>)
        ensures
            capacity <= MAX_ALLOCATION ==> r is Ok && r->Ok_0@ == zeroed(capacity as nat),
            capacity > MAX_ALLOCATION ==> r == Err::<DataHolder, StoreError>(
                StoreError::AllocationTooLarge,
            ),
    {
        if capacity > MAX_ALLOCATION {
            return Err(StoreError::AllocationTooLarge);
        }
        let mut long_string: Vec<u8> = Vec::new();
        long_string.resize(capacity, 0u8);
        assert(long_string@ =~= zeroed(capacity as nat));
        Ok(DataHolder { long_string })
    }

    /// The number of bytes persistently reserved.
    pub fn capacity(&self) -> (n: usize)
        ensures
            n == self.spec_capacity(),
    {
        self.long_string.len()
    }

    /// The byte at `index`, or the refusal of an index outside the capacity.
    pub fn byte_at(&self, index: usize) -> (r: Result<u8, StoreError>)
        ensures
            index < self@.len() ==> r == Ok::<u8, StoreError>(self@[index as int]),
            index >= self@.len() ==> r == Err::<u8, StoreError>(StoreError::OutOfBounds),
    {
        if index >= self.long_string.len() {
            return Err(StoreError::OutOfBounds);
        }
        Ok(self.long_string[index])
    }

    /// Copies `bytes` over the content from `offset` on and touches no other
    /// byte. A range that does not lie inside the capacity is refused and
    /// the store is left as it was.
    pub fn write(&mut self, offset: usize, bytes: &[u8]) -> (r: Result<(), StoreError>)
        ensures
            in_bounds(old(self)@.len(), offset as nat, bytes@.len()) ==> r is Ok && final(self)@
                == overwrite(old(self)@, offset as int, bytes@),
            !in_bounds(old(self)@.len(), offset as nat, bytes@.len()) ==> r == Err::<
                (),
                StoreError,
            >(StoreError::OutOfBounds) && final(self)@ == old(self)@,
    {
        write_in_place(self.long_string.as_mut_slice(), offset, bytes)
    }

    /// Raises the capacity to `new_capacity`: the content stays and the new
    /// tail is zero. A smaller capacity is refused and the store is left as
    /// it was.
    pub fn grow(&mut self, new_capacity: usize) -> (r: Result<(), StoreError>)
        ensures
            new_capacity >= old(self)@.len() ==> r is Ok && final(self)@ == zero_extend(
                old(self)@,
                new_capacity as nat,
            ),
            new_capacity < old(self)@.len() ==> r == Err::<(), StoreError>(StoreError::InvalidSize)
                && final(self)@ == old(self)@,
    {
        let capacity: usize = self.long_string.len();
        if new_capacity < capacity {
            return Err(StoreError::InvalidSize);
        }
        if new_capacity > capacity {
            self.long_string.resize(new_capacity, 0u8);
        }
        assert(self.long_string@ =~= zero_extend(old(self)@, new_capacity as nat));
        Ok(())
    }
}

/// Creates the fixed-capacity store: `capacity` zero bytes.
pub fn initialize_zero_copy(capacity: usize) -> (r: Result<DataHolder, StoreError>)
    ensures
        capacity <= MAX_ALLOCATION ==> r is Ok && r->Ok_0@ == zeroed(capacity as nat),
        capacity > MAX_ALLOCATION ==> r == Err::<DataHolder, StoreError>(
            StoreError::AllocationTooLarge,
        ),
{
    DataHolder::init(capacity)
}

/// Writes the bytes of `string_to_set` into the region `data` at `index`,
/// in place. The bytes are opaque: whether they read as text is not looked
/// at. A range outside the region is refused and the region is left as it
/// was.
pub fn set_data_in_place(data: &mut [u8], string_to_set: &[u8], index: u64) -> (r: Result<
    (),
    StoreError,
>)
    ensures
        in_bounds(old(data)@.len(), index as nat, string_to_set@.len()) ==> r is Ok
            && final(data)@ == overwrite(old(data)@, index as int, string_to_set@),
        !in_bounds(old(data)@.len(), index as nat, string_to_set@.len()) ==> r == Err::<
            (),
            StoreError,
        >(StoreError::OutOfBounds) && final(data)@ == old(data)@,
{
    let capacity: usize = data.len();
    if index > capacity as u64 {
        return Err(StoreError::OutOfBounds);
    }
    write_in_place(data, index as usize, string_to_set)
}

/// Writes the bytes of `string_to_set` into the store at `index`, in place.
/// The bytes are opaque: whether they read as text is not looked at. A range
/// outside the capacity is refused and the store is left as it was.
pub fn set_data(holder: &mut DataHolder, string_to_set: &[u8], index: u64) -> (r: Result<
    (),
    StoreError,
>)
    ensures
        in_bounds(old(holder)@.len(), index as nat, string_to_set@.len()) ==> r is Ok
            && final(holder)@ == overwrite(old(holder)@, index as int, string_to_set@),
        !in_bounds(old(holder)@.len(), index as nat, string_to_set@.len()) ==> r == Err::<
            (),
            StoreError,
        >(StoreError::OutOfBounds) && final(holder)@ == old(holder)@,
{
    set_data_in_place(holder.long_string.as_mut_slice(), string_to_set, index)
}

/// Reallocates the store to `len` bytes: the content stays, the new tail is
/// zero. A `len` below the capacity is refused and the store is left as it
/// was.
pub fn increase_account_data_zero_copy(holder: &mut DataHolder, len: u16) -> (r: Result<
    (),
    StoreError,
>)
    ensures
        len >= old(holder)@.len() ==> r is Ok && final(holder)@ == zero_extend(
            old(holder)@,
            len as nat,
        ),
        len < old(holder)@.len() ==> r == Err::<(), StoreError>(StoreError::InvalidSize)
            && final(holder)@ == old(holder)@,
{
    holder.grow(len as usize)
}

/// After a write inside the capacity the written range holds the bytes, and
/// what lies before it and behind it is what it was.
pub proof fn lemma_write_touches_only_its_range(data: Seq<u8>, offset: nat, bytes: Seq<u8>)
    requires
        in_bounds(data.len(), offset, bytes.len()),
    ensures
        overwrite(data, offset as int, bytes).len() == data.len(),
        overwrite(data, offset as int, bytes).subrange(offset as int, (offset + bytes.len()) as int)
            == bytes,
        overwrite(data, offset as int, bytes).subrange(0, offset as int) == data.subrange(
            0,
            offset as int,
        ),
        overwrite(data, offset as int, bytes).subrange(
            (offset + bytes.len()) as int,
            data.len() as int,
        ) == data.subrange((offset + bytes.len()) as int, data.len() as int),
{
    let after = overwrite(data, offset as int, bytes);
    assert(after.subrange(offset as int, (offset + bytes.len()) as int) =~= bytes);
    assert(after.subrange(0, offset as int) =~= data.subrange(0, offset as int));
    assert(after.subrange((offset + bytes.len()) as int, data.len() as int) =~= data.subrange(
        (offset + bytes.len()) as int,
        data.len() as int,
    ));
}

/// After a growth the store has the new capacity, its old content in front,
/// and zero bytes behind it.
pub proof fn lemma_grow_keeps_content_and_zeroes_tail(data: Seq<u8>, new_capacity: nat)
    requires
        new_capacity >= data.len(),
    ensures
        zero_extend(data, new_capacity).len() == new_capacity,
        zero_extend(data, new_capacity).subrange(0, data.len() as int) == data,
        forall|i: int|
            data.len() <= i < new_capacity ==> #[trigger] zero_extend(data, new_capacity)[i]
                == 0u8,
{
    assert(zero_extend(data, new_capacity).subrange(0, data.len() as int) =~= data);
}

/// A write into the tail that a growth added leaves the content from before
/// the growth as it was.
pub proof fn lemma_write_after_grow_keeps_prefix(
    data: Seq<u8>,
    new_capacity: nat,
    offset: nat,
    bytes: Seq<u8>,
)
    requires
        data.len() <= offset,
        in_bounds(new_capacity, offset, bytes.len()),
    ensures
        overwrite(zero_extend(data, new_capacity), offset as int, bytes).subrange(
            0,
            data.len() as int,
        ) == data,
{
    assert(overwrite(zero_extend(data, new_capacity), offset as int, bytes).subrange(
        0,
        data.len() as int,
    ) =~= data);
}

} // verus!
