use temu::reader::{deliver, reader_step, ReadOutcome, ReaderStep, READ_BUFFER_SIZE};
use temu::term::grid::Terminal;
use termwiz::escape::parser::Parser;
use termwiz::escape::Action;

fn read(parser: &mut Parser, bytes: &[u8]) -> ReaderStep {
    let mut buffer = [0u8; READ_BUFFER_SIZE];
    buffer[..bytes.len()].copy_from_slice(bytes);
    reader_step(parser, ReadOutcome::Read(bytes.len()), &buffer)
}

#[test]
fn bytes_become_actions_for_the_grid() {
    let mut parser = Parser::new();
    let mut term = Terminal::new(8);
    match read(&mut parser, b"ls\r\nok") {
        ReaderStep::Deliver(actions) => term.perform_actions(actions),
        _ => panic!("no batch"),
    }
    let mut first = String::new();
    term.rows()[0].write_text(&mut first);
    let mut second = String::new();
    term.rows()[1].write_text(&mut second);
    assert_eq!(first, "ls      ");
    assert_eq!(second, "ok      ");
    assert_eq!(term.cursor(), (2, 1));
}

#[test]
fn only_the_bytes_read_are_parsed() {
    let mut parser = Parser::new();
    let buffer = [b'a', b'b', b'c', b'd'];
    match reader_step(&mut parser, ReadOutcome::Read(2), &buffer) {
        ReaderStep::Deliver(actions) => {
            assert_eq!(actions, vec![Action::Print('a'), Action::Print('b')]);
        },
        _ => panic!("no batch"),
    }
}

#[test]
fn unfinished_sequence_waits_for_the_next_read() {
    let mut parser = Parser::new();
    let mut term = Terminal::new(4);
    term.text('x');
    assert!(matches!(read(&mut parser, b"\x1b["), ReaderStep::Continue));
    match read(&mut parser, b"2J") {
        ReaderStep::Deliver(actions) => {
            assert_eq!(actions.len(), 1);
            term.perform_actions(actions);
        },
        _ => panic!("no batch"),
    }
    let mut text = String::new();
    term.rows()[0].write_text(&mut text);
    assert_eq!(text, "    ");
    assert_eq!(term.cursor(), (0, 0));
}

#[test]
fn end_of_output_and_failure_stop_the_worker() {
    let mut parser = Parser::new();
    let buffer = [0u8; 16];
    assert!(matches!(reader_step(&mut parser, ReadOutcome::Read(0), &buffer), ReaderStep::Stop));
    assert!(matches!(reader_step(&mut parser, ReadOutcome::Failed, &buffer), ReaderStep::Stop));
    assert!(matches!(reader_step(&mut parser, ReadOutcome::Read(17), &buffer), ReaderStep::Stop));
}

#[test]
fn interrupted_read_is_tried_again() {
    let mut parser = Parser::new();
    let buffer = [b'a'; 16];
    let step = reader_step(&mut parser, ReadOutcome::Interrupted, &buffer);
    assert!(matches!(step, ReaderStep::Continue));
}

#[test]
fn empty_batch_is_not_delivered() {
    assert!(matches!(deliver(Vec::new()), ReaderStep::Continue));
    match deliver(vec![Action::Print('a')]) {
        ReaderStep::Deliver(actions) => assert_eq!(actions, vec![Action::Print('a')]),
        _ => panic!("no batch"),
    }
}
