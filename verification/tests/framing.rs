use echo_server::connection::{frame_message, READ_CAPACITY};

#[test]
fn frame_stops_before_first_zero_byte() {
    assert_eq!(frame_message(&vec![0x41, 0x42, 0x00, 0x43]), vec![0x41, 0x42]);
}

#[test]
fn frame_keeps_bytes_without_zero() {
    assert_eq!(frame_message(&vec![b'h', b'i']), vec![b'h', b'i']);
}

#[test]
fn frame_of_nothing_is_empty() {
    assert_eq!(frame_message(&Vec::new()), Vec::<u8>::new());
}

#[test]
fn frame_of_leading_zero_is_empty() {
    assert_eq!(frame_message(&vec![0, 1, 2, 3]), Vec::<u8>::new());
}

#[test]
fn frame_stops_at_first_of_several_zero_bytes() {
    assert_eq!(frame_message(&vec![7, 0, 8, 0, 9]), vec![7]);
}

#[test]
fn frame_keeps_trailing_bytes_up_to_final_zero() {
    assert_eq!(frame_message(&vec![1, 2, 3, 0]), vec![1, 2, 3]);
}

#[test]
fn frame_keeps_invalid_text_unchanged() {
    assert_eq!(frame_message(&vec![0xff, 0xfe, 0x80]), vec![0xff, 0xfe, 0x80]);
}

#[test]
fn read_capacity_is_1024() {
    assert_eq!(READ_CAPACITY, 1024);
}

#[test]
fn frame_takes_a_full_buffer() {
    let received = vec![5u8; 1024];
    assert_eq!(frame_message(&received), received);
}

#[test]
fn frame_takes_no_more_than_one_buffer() {
    let received = vec![5u8; 1500];
    assert_eq!(frame_message(&received), vec![5u8; 1024]);
}

#[test]
fn frame_ignores_zero_byte_beyond_the_buffer() {
    let mut received = vec![9u8; 1024];
    received.push(0);
    received.push(1);
    assert_eq!(frame_message(&received), vec![9u8; 1024]);
}

#[test]
fn frame_stops_at_zero_in_last_place_of_the_buffer() {
    let mut received = vec![3u8; 1023];
    received.push(0);
    received.push(4);
    assert_eq!(frame_message(&received), vec![3u8; 1023]);
}
