use zero_copy::error::StoreError;
use zero_copy::growable::{initialize_no_zero_copy, set_data_no_zero_copy, DataHolderNoZeroCopy};
use zero_copy::limits::{HEAP_BUDGET, MAX_ALLOCATION};

#[test]
fn growable_starts_empty() {
    let holder = DataHolderNoZeroCopy::init();
    assert!(holder.greet_string.is_empty());
    assert!(initialize_no_zero_copy().greet_string.is_empty());
}

#[test]
fn append_joins_at_the_end() {
    let mut holder = DataHolderNoZeroCopy::init();
    assert_eq!(holder.append(b"abc"), Ok(()));
    assert_eq!(holder.append(b""), Ok(()));
    assert_eq!(holder.append(b"de"), Ok(()));
    assert_eq!(holder.greet_string, b"abcde".to_vec());
}

#[test]
fn append_in_two_steps_or_in_one() {
    let mut two = DataHolderNoZeroCopy::init();
    assert_eq!(two.append(b"seed"), Ok(()));
    let mut one = DataHolderNoZeroCopy::init();
    assert_eq!(one.append(b"seed"), Ok(()));

    assert_eq!(two.append(b"left"), Ok(()));
    assert_eq!(two.append(b"right"), Ok(()));
    assert_eq!(one.append(b"leftright"), Ok(()));
    assert_eq!(two.greet_string, one.greet_string);
    assert_eq!(one.greet_string, b"seedleftright".to_vec());
}

#[test]
fn append_fills_the_heap_budget_exactly() {
    let mut holder = DataHolderNoZeroCopy::init();
    assert_eq!(holder.append(&vec![1u8; 32767]), Ok(()));
    assert_eq!(holder.append(&[2]), Ok(()));
    assert_eq!(holder.greet_string.len(), HEAP_BUDGET);
    assert_eq!(holder.greet_string[32767], 2);
}

#[test]
fn append_past_the_heap_budget_is_refused() {
    let mut holder = DataHolderNoZeroCopy::init();
    assert_eq!(holder.append(&vec![1u8; 32768]), Ok(()));
    assert!(holder.greet_string.len() < MAX_ALLOCATION);
    assert_eq!(holder.append(&[2]), Err(StoreError::TransientMemoryExceeded));
    assert_eq!(holder.greet_string, vec![1u8; 32768]);

    let mut fresh = DataHolderNoZeroCopy::init();
    assert_eq!(fresh.append(&vec![1u8; 32769]), Err(StoreError::TransientMemoryExceeded));
    assert!(fresh.greet_string.is_empty());
}

#[test]
fn same_content_fits_the_fixed_store() {
    let mut naive = DataHolderNoZeroCopy::init();
    let mut fixed = zero_copy::buffer::DataHolder::init(40952).unwrap();
    let block = vec![b'A'; 912];
    let mut written: usize = 0;
    let mut refused_at: Option<usize> = None;
    while written + 912 <= 40952 {
        assert_eq!(fixed.write(written, &block), Ok(()));
        if refused_at.is_none() && naive.append(&block).is_err() {
            refused_at = Some(written);
        }
        written += 912;
    }
    assert_eq!(refused_at, Some(35 * 912));
    assert_eq!(naive.greet_string.len(), 35 * 912);
    assert!((0..written).all(|i| fixed.byte_at(i) == Ok(b'A')));
    assert!((written..40952).all(|i| fixed.byte_at(i) == Ok(0)));
}

#[test]
fn set_data_no_zero_copy_appends_text() {
    let mut holder = initialize_no_zero_copy();
    assert_eq!(set_data_no_zero_copy(&mut holder, "grüß".as_bytes()), Ok(()));
    assert_eq!(set_data_no_zero_copy(&mut holder, b" dich"), Ok(()));
    assert_eq!(holder.greet_string, "grüß dich".as_bytes().to_vec());
    assert_eq!(holder.text(), Ok("grüß dich"));
    let long = vec![b'x'; 32768];
    assert_eq!(
        set_data_no_zero_copy(&mut holder, &long),
        Err(StoreError::TransientMemoryExceeded)
    );
    assert_eq!(holder.greet_string, "grüß dich".as_bytes().to_vec());
}

#[test]
fn set_data_no_zero_copy_appends_bytes_that_are_no_text() {
    let mut holder = initialize_no_zero_copy();
    assert_eq!(set_data_no_zero_copy(&mut holder, &[0xff, 0x00]), Ok(()));
    assert_eq!(holder.greet_string, vec![0xff, 0x00]);
    let mut other = DataHolderNoZeroCopy::init();
    assert_eq!(other.append(&[0xc3]), Ok(()));
    assert_eq!(other.greet_string, vec![0xc3]);
}

#[test]
fn text_of_an_empty_store_is_empty() {
    let holder = DataHolderNoZeroCopy::init();
    assert_eq!(holder.text(), Ok(""));
}

#[test]
fn text_reads_the_whole_content() {
    let mut holder = DataHolderNoZeroCopy::init();
    assert_eq!(holder.append(b"hel"), Ok(()));
    assert_eq!(holder.append(b"lo"), Ok(()));
    assert_eq!(holder.text(), Ok("hello"));
}

#[test]
fn text_refuses_a_content_that_is_no_text() {
    let mut holder = DataHolderNoZeroCopy::init();
    assert_eq!(holder.append(b"ab"), Ok(()));
    assert_eq!(holder.append(&[0xff, 0xfe]), Ok(()));
    assert_eq!(holder.text(), Err(StoreError::Utf8DecodeError));
    assert_eq!(holder.greet_string, vec![b'a', b'b', 0xff, 0xfe]);
}

#[test]
fn text_joins_a_character_split_over_two_appends() {
    let mut holder = DataHolderNoZeroCopy::init();
    assert_eq!(holder.append(&[0xc3]), Ok(()));
    assert_eq!(holder.text(), Err(StoreError::Utf8DecodeError));
    assert_eq!(holder.append(&[0xa9]), Ok(()));
    assert_eq!(holder.text(), Ok("é"));
}
