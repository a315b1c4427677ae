use dcr::ingest::{Action, BodyEvent, Ingest, IngestError, Phase};

#[test]
fn a_new_body_is_empty_and_being_read() {
    let ingest = Ingest::new();
    assert_eq!(ingest.len(), 0);
    assert_eq!(ingest.to_vec(), Vec::<u8>::new());
    assert_eq!(ingest.current_phase(), Phase::Reading);
    assert_eq!(ingest.check_drained(), Err(IngestError::Unfinished));
}

#[test]
fn chunks_are_appended_in_order() {
    let mut ingest = Ingest::new();
    assert_eq!(ingest.step(&BodyEvent::Chunk(b"aaabbb".to_vec())), Action::ReadOn);
    assert_eq!(ingest.len(), 6);
    assert_eq!(ingest.step(&BodyEvent::Chunk(Vec::new())), Action::ReadOn);
    assert_eq!(ingest.len(), 6);
    assert_eq!(ingest.step(&BodyEvent::Chunk(b"cccddd".to_vec())), Action::ReadOn);
    assert_eq!(ingest.len(), 12);
    assert_eq!(ingest.to_vec(), b"aaabbbcccddd".to_vec());
    assert_eq!(ingest.current_phase(), Phase::Reading);
}

#[test]
fn a_long_body_is_kept_whole() {
    let mut ingest = Ingest::new();
    let mut expected: Vec<u8> = Vec::new();
    for round in 0..200u32 {
        let chunk: Vec<u8> = (0..997u32).map(|i| ((i * 7 + round) % 251) as u8).collect();
        expected.extend_from_slice(&chunk);
        assert_eq!(ingest.step(&BodyEvent::Chunk(chunk)), Action::ReadOn);
    }
    assert_eq!(ingest.len(), 200 * 997);
    assert_eq!(ingest.to_vec(), expected);
}

#[test]
fn the_end_completes_the_body() {
    let mut ingest = Ingest::new();
    ingest.step(&BodyEvent::Chunk(vec![1, 2, 3]));
    assert_eq!(ingest.step(&BodyEvent::End), Action::Respond);
    assert_eq!(ingest.current_phase(), Phase::Complete);
    assert_eq!(ingest.check_drained(), Ok(()));
    assert_eq!(ingest.to_vec(), vec![1, 2, 3]);
}

#[test]
fn an_empty_body_completes_too() {
    let mut ingest = Ingest::new();
    assert_eq!(ingest.step(&BodyEvent::End), Action::Respond);
    assert_eq!(ingest.check_drained(), Ok(()));
    assert_eq!(ingest.len(), 0);
}

#[test]
fn a_failure_breaks_the_body() {
    let mut ingest = Ingest::new();
    ingest.step(&BodyEvent::Chunk(vec![9, 9]));
    assert_eq!(ingest.step(&BodyEvent::Failed), Action::GiveUp);
    assert_eq!(ingest.current_phase(), Phase::Broken);
    assert_eq!(ingest.check_drained(), Err(IngestError::Broken));
    assert_eq!(ingest.to_vec(), vec![9, 9]);
}

#[test]
fn nothing_follows_the_end() {
    let mut ingest = Ingest::new();
    ingest.step(&BodyEvent::Chunk(vec![1]));
    ingest.step(&BodyEvent::End);
    assert_eq!(ingest.step(&BodyEvent::Chunk(vec![2])), Action::Respond);
    assert_eq!(ingest.step(&BodyEvent::Failed), Action::Respond);
    assert_eq!(ingest.step(&BodyEvent::End), Action::Respond);
    assert_eq!(ingest.to_vec(), vec![1]);
    assert_eq!(ingest.current_phase(), Phase::Complete);
}

#[test]
fn nothing_mends_a_broken_body() {
    let mut ingest = Ingest::new();
    ingest.step(&BodyEvent::Failed);
    assert_eq!(ingest.step(&BodyEvent::Chunk(vec![2])), Action::GiveUp);
    assert_eq!(ingest.step(&BodyEvent::End), Action::GiveUp);
    assert_eq!(ingest.len(), 0);
    assert_eq!(ingest.current_phase(), Phase::Broken);
}
