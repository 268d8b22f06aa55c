use carbide::controller::grbl::buffer::{wire_length, Admission, ConfigError, LineBuffer, BUFFER_SIZE};
use carbide::controller::grbl::proto::{GrblLineCommand, GrblRealtimeCommand, ProtocolError};

fn admitted<A>(a: &Admission<A>) -> bool {
    matches!(a, Admission::Admitted)
}

#[test]
fn three_lines_of_fifty_bytes() {
    let mut b: LineBuffer<u32> = LineBuffer::new();
    let line = "G".repeat(50);
    let len = wire_length(&GrblLineCommand::Line(line).to_line()).unwrap();
    assert_eq!(len, 51);
    assert!(admitted(&b.offer(1, len)));
    assert_eq!(b.remaining_bytes(), 77);
    assert!(admitted(&b.offer(2, len)));
    assert_eq!(b.remaining_bytes(), 26);
    let third = match b.offer(3, len) {
        Admission::Wait(a) => a,
        _ => panic!("third line must wait"),
    };
    assert_eq!(b.remaining_bytes(), 26);
    assert_eq!(b.on_response(), Ok(1));
    assert_eq!(b.remaining_bytes(), 77);
    assert!(admitted(&b.offer(third, len)));
    assert_eq!(b.remaining_bytes(), 26);
    assert_eq!(b.on_response(), Ok(2));
    assert_eq!(b.on_response(), Ok(3));
    assert_eq!(b.remaining_bytes(), BUFFER_SIZE);
    assert_eq!(b.unanswered(), 0);
}

#[test]
fn line_filling_the_whole_buffer() {
    let mut b: LineBuffer<&str> = LineBuffer::new();
    let line = "X".repeat(BUFFER_SIZE - 1);
    let len = wire_length(&GrblLineCommand::Line(line).to_line()).unwrap();
    assert_eq!(len, BUFFER_SIZE);
    assert!(admitted(&b.offer("full", len)));
    assert_eq!(b.remaining_bytes(), 0);
    assert!(matches!(b.offer("tiny", 2), Admission::Wait("tiny")));
    assert_eq!(b.on_response(), Ok("full"));
    assert!(admitted(&b.offer("tiny", 2)));
}

#[test]
fn two_half_lines_share_the_buffer() {
    let mut b: LineBuffer<char> = LineBuffer::new();
    let len = wire_length(&GrblLineCommand::Line("Y".repeat(BUFFER_SIZE / 2 - 1)).to_line()).unwrap();
    assert_eq!(len, 64);
    assert!(admitted(&b.offer('a', len)));
    assert!(admitted(&b.offer('b', len)));
    assert_eq!(b.remaining_bytes(), 0);
    assert_eq!(b.on_response(), Ok('a'));
    assert_eq!(b.on_response(), Ok('b'));
}

#[test]
fn oversized_line_is_refused() {
    let wire = GrblLineCommand::Line("Z".repeat(BUFFER_SIZE)).to_line();
    assert_eq!(wire_length(&wire), Err(ConfigError::LineTooLong));
    let mut b: LineBuffer<u8> = LineBuffer::new();
    assert!(matches!(b.offer(9, BUFFER_SIZE + 1), Admission::Rejected(9, ConfigError::LineTooLong)));
    assert_eq!(b.remaining_bytes(), BUFFER_SIZE);
    assert_eq!(b.unanswered(), 0);
}

#[test]
fn response_without_a_line_is_a_protocol_error() {
    let mut b: LineBuffer<u8> = LineBuffer::new();
    assert_eq!(b.on_response(), Err(ProtocolError::UnexpectedResponse));
    assert_eq!(b.remaining_bytes(), BUFFER_SIZE);
}

#[test]
fn link_loss_fails_every_awaiter_in_order() {
    let mut b: LineBuffer<u8> = LineBuffer::new();
    assert!(admitted(&b.offer(1, 10)));
    assert!(admitted(&b.offer(2, 20)));
    assert!(admitted(&b.offer(3, 30)));
    assert_eq!(b.on_link_loss(), vec![1, 2, 3]);
    assert_eq!(b.remaining_bytes(), BUFFER_SIZE);
    assert_eq!(b.unanswered(), 0);
}

#[test]
fn realtime_command_bypasses_the_budget() {
    let mut b: LineBuffer<u8> = LineBuffer::new();
    assert!(admitted(&b.offer(1, BUFFER_SIZE)));
    let code = GrblRealtimeCommand::SoftReset.to_code();
    assert_eq!(&code[..], &[0x18u8][..]);
    assert_eq!(b.remaining_bytes(), 0);
    assert_eq!(b.unanswered(), 1);
}
