//! The naive store, kept for contrast: a variable-length content that is
//! rebuilt as a whole on every append, so that the whole of it has to fit
//! the working heap of one operation.

use vstd::prelude::*;
use vstd::string::StringSliceAdditionalSpecFns;
use crate::buffer::{in_bounds, overwrite};
use crate::error::StoreError;
use crate::limits::{HEAP_BUDGET, MAX_ALLOCATION};
use crate::text::decode_text;
use vstd::utf8::valid_utf8;

verus! {

/// A variable-length content. It is changed by appending only.
#[derive(Debug)]
pub struct DataHolderNoZeroCopy {
    pub greet_string: Vec<u8>,
}

/// Whether the content that an append would build fits the working heap.
pub open spec fn append_fits(content: Seq<u8>, bytes: Seq<u8>) -> bool {
    content.len() + bytes.len() <= HEAP_BUDGET
}

/// The content after an append of `bytes`: the two joined where the result
/// fits the working heap, and `content` as it was where it does not.
pub open spec fn appended(content: Seq<u8>, bytes: Seq<u8>) -> Seq<u8> {
    if append_fits(content, bytes) {
        content + bytes
    } else {
        content
    }
}

impl View for DataHolderNoZeroCopy {
    type V = Seq<u8>;

    open spec fn view(&self) -> Seq<u8> {
        self.greet_string@
    }
}

impl DataHolderNoZeroCopy {
    /// The content is no longer than the persisted ceiling.
    pub open spec fn wf(&self) -> bool {
        self@.len() <= MAX_ALLOCATION
    }

    /// The empty store.
    pub fn init() -> (r: DataHolderNoZeroCopy)
        ensures
            r@ == Seq::<u8>::empty(),
            r.wf(),
    {
        DataHolderNoZeroCopy { greet_string: Vec::new() }
    }

    /// Joins `bytes` to the end of the content. The joined content has to
    /// fit the working heap: where it does not, the append is refused and
    /// the content is left as it was, however much persisted room remains.
    pub fn append(&mut self, bytes: &[u8]) -> (r: Result<(), StoreError>)
        ensures
            final(self)@ == appended(old(self)@, bytes@),
            append_fits(old(self)@, bytes@) ==> r is Ok,
            !append_fits(old(self)@, bytes@) ==> r == Err::<(), StoreError>(
                StoreError::TransientMemoryExceeded,
            ),
            old(self).wf() ==> final(self).wf(),
    {
        let held: usize = self.greet_string.len();
        let more: usize = bytes.len();
        if held > HEAP_BUDGET || more > HEAP_BUDGET - held {
            return Err(StoreError::TransientMemoryExceeded);
        }
        self.greet_string.extend_from_slice(bytes);
        assert(self.greet_string@ =~= old(self)@ + bytes@);
        Ok(())
    }

    /// The whole content read as text, or the refusal of a content that is
    /// not valid UTF-8. Nothing is decoded anywhere else: the content is
    /// opaque bytes until it is asked for as text.
    pub fn text(&self) -> (r: Result<&str, StoreError>)
        ensures
            valid_utf8(self@) ==> r is Ok && r->Ok_0.spec_bytes() == self@,
            !valid_utf8(self@) ==> r == Err::<&str, StoreError>(StoreError::Utf8DecodeError),
    {
        match decode_text(self.greet_string.as_slice()) {
            Some(text) => Ok(text),
            None => Err(StoreError::Utf8DecodeError),
        }
    }
}

/// Creates the naive store, empty.
pub fn initialize_no_zero_copy() -> (r: DataHolderNoZeroCopy)
    ensures
        r@ == Seq::<u8>::empty(),
        r.wf(),
{
    DataHolderNoZeroCopy::init()
}

/// Appends the bytes of `string_to_set` to the naive store. The bytes are
/// opaque: whether they read as text is not looked at.
pub fn set_data_no_zero_copy(holder: &mut DataHolderNoZeroCopy, string_to_set: &[u8]) -> (r: Result<
    (),
    StoreError,
>)
    ensures
        final(holder)@ == appended(old(holder)@, string_to_set@),
        append_fits(old(holder)@, string_to_set@) ==> r is Ok,
        !append_fits(old(holder)@, string_to_set@) ==> r == Err::<(), StoreError>(
            StoreError::TransientMemoryExceeded,
        ),
        old(holder).wf() ==> final(holder).wf(),
{
    holder.append(string_to_set)
}

/// Appending `a` and then `b` builds the content that one append of `a`
/// followed by `b` builds, whenever the whole fits the working heap.
pub proof fn lemma_append_associative(content: Seq<u8>, a: Seq<u8>, b: Seq<u8>)
    requires
        content.len() + a.len() + b.len() <= HEAP_BUDGET,
    ensures
        appended(appended(content, a), b) == appended(content, a + b),
{
    assert((content + a) + b =~= content + (a + b));
}

/// A content can be too large to touch long before it is too large to
/// store: where the naive store refuses an append because the joined content
/// would not fit the working heap, the fixed store still takes the same
/// bytes at every place inside its capacity.
pub proof fn lemma_too_large_to_touch_not_to_store(
    content: Seq<u8>,
    bytes: Seq<u8>,
    data: Seq<u8>,
    offset: nat,
)
    requires
        content.len() + bytes.len() > HEAP_BUDGET,
        in_bounds(data.len(), offset, bytes.len()),
    ensures
        appended(content, bytes) == content,
        overwrite(data, offset as int, bytes).subrange(
            offset as int,
            (offset + bytes.len()) as int,
        ) == bytes,
{
    assert(overwrite(data, offset as int, bytes).subrange(
        offset as int,
        (offset + bytes.len()) as int,
    ) =~= bytes);
}

} // verus!
