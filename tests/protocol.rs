use sperr::protocol::{classify, Defect, Direction, Event, Guard, Outcome, Phase};
use sperr::Error;

fn drive(direction: Direction, events: &[Event]) -> Phase {
    let mut guard = Guard::new(direction);
    for e in events {
        guard.step(*e);
    }
    guard.phase()
}

#[test]
fn compression_status_codes() {
    assert_eq!(classify(Direction::Compress, 0), Outcome::Success);
    assert_eq!(classify(Direction::Compress, 1), Outcome::Defect(Defect::DirtyOutput));
    assert_eq!(classify(Direction::Compress, 2), Outcome::Failed(Error::InvalidParameter));
    assert_eq!(classify(Direction::Compress, -1), Outcome::Failed(Error::Other));
    assert_eq!(classify(Direction::Compress, 7), Outcome::Defect(Defect::UnknownStatus(7)));
}

#[test]
fn decompression_status_codes() {
    assert_eq!(classify(Direction::Decompress, 0), Outcome::Success);
    assert_eq!(classify(Direction::Decompress, 1), Outcome::Defect(Defect::DirtyOutput));
    assert_eq!(classify(Direction::Decompress, 2), Outcome::Defect(Defect::UnknownStatus(2)));
    assert_eq!(classify(Direction::Decompress, -1), Outcome::Failed(Error::Other));
    assert_eq!(classify(Direction::Decompress, -5), Outcome::Defect(Defect::UnknownStatus(-5)));
}

#[test]
fn successful_call_copies_then_releases_once() {
    let mut guard = Guard::new(Direction::Compress);
    assert_eq!(guard.phase(), Phase::AwaitingStatus);
    guard.step(Event::Status(0));
    assert_eq!(guard.phase(), Phase::Holding);
    guard.step(Event::CopiedOut);
    assert_eq!(guard.phase(), Phase::Copied);
    guard.step(Event::Released);
    assert_eq!(guard.phase(), Phase::Complete);
}

#[test]
fn second_release_is_a_defect() {
    let events = [Event::Status(0), Event::CopiedOut, Event::Released, Event::Released];
    assert_eq!(drive(Direction::Decompress, &events), Phase::Aborted(Defect::OutOfOrder));
}

#[test]
fn release_before_copy_is_a_defect() {
    let events = [Event::Status(0), Event::Released];
    assert_eq!(drive(Direction::Compress, &events), Phase::Aborted(Defect::OutOfOrder));
}

#[test]
fn failed_call_never_reaches_a_release() {
    assert_eq!(drive(Direction::Compress, &[Event::Status(2)]), Phase::Failed(Error::InvalidParameter));
    assert_eq!(drive(Direction::Decompress, &[Event::Status(-1)]), Phase::Failed(Error::Other));
    let events = [Event::Status(-1), Event::CopiedOut, Event::Released];
    assert_eq!(drive(Direction::Compress, &events), Phase::Aborted(Defect::OutOfOrder));
}

#[test]
fn defect_stays_a_defect() {
    let events = [Event::Status(1), Event::CopiedOut, Event::Released];
    assert_eq!(drive(Direction::Compress, &events), Phase::Aborted(Defect::DirtyOutput));
    let events = [Event::Status(42), Event::Released];
    assert_eq!(drive(Direction::Decompress, &events), Phase::Aborted(Defect::UnknownStatus(42)));
}

#[test]
fn held_output_is_copied_byte_for_byte() {
    let mut guard = Guard::new(Direction::Compress);
    guard.step(Event::Status(0));
    let native = [9u8, 8, 7, 6];
    assert_eq!(guard.take_output(&native), Some(vec![9u8, 8, 7, 6]));
    assert_eq!(guard.phase(), Phase::Copied);
    guard.step(Event::Released);
    assert_eq!(guard.phase(), Phase::Complete);
}

#[test]
fn output_is_not_copied_after_a_failure() {
    let mut guard = Guard::new(Direction::Compress);
    guard.step(Event::Status(-1));
    assert_eq!(guard.take_output(&[1u8, 2]), None);
    assert_eq!(guard.phase(), Phase::Aborted(Defect::OutOfOrder));
}
