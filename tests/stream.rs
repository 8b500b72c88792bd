use ctranslate2_rs::stream::{StepEvent, StepStream, StreamError};

fn ev(step: usize, batch_id: usize, token_id: usize, is_last: bool) -> StepEvent {
    StepEvent { step, batch_id, token_id, is_last }
}

#[test]
fn stop_on_first_event_gives_one_token() {
    let mut s = StepStream::new(3);
    assert_eq!(s.observe(ev(0, 0, 7, false), true), Ok(true));
    assert_eq!(s.observe(ev(0, 2, 8, false), true), Ok(true));
    assert_eq!(s.observe(ev(1, 0, 9, false), true), Err(StreamError::AfterLast));
    assert_eq!(s.progress(0).tokens, 1);
    assert!(s.progress(0).cancelled);
    assert_eq!(s.progress(1).tokens, 0);
    assert_eq!(s.progress(2).tokens, 1);
    assert!(!s.all_finished());
    assert_eq!(s.observe(ev(0, 1, 5, false), true), Ok(true));
    assert!(s.all_finished());
}

#[test]
fn two_elements_three_tokens_each() {
    let mut s = StepStream::new(2);
    for step in 0..3usize {
        for b in 0..2usize {
            assert_eq!(s.observe(ev(step, b, 100 + step, step == 2), false), Ok(step == 2));
        }
    }
    assert_eq!(s.progress(0).tokens, 3);
    assert_eq!(s.progress(1).tokens, 3);
    assert!(!s.progress(0).cancelled);
    assert!(s.all_finished());
}

#[test]
fn events_out_of_order_are_refused() {
    let mut s = StepStream::new(1);
    assert_eq!(s.observe(ev(4, 0, 1, false), false), Ok(false));
    assert_eq!(s.observe(ev(3, 0, 1, false), false), Err(StreamError::OutOfOrder));
    assert_eq!(s.observe(ev(4, 0, 2, false), false), Ok(false));
    assert_eq!(s.progress(0).tokens, 2);
    assert_eq!(s.progress(0).last_step, Some(4));
}

#[test]
fn unknown_element_is_refused() {
    let mut s = StepStream::new(2);
    assert_eq!(s.observe(ev(0, 2, 1, false), false), Err(StreamError::UnknownElement));
    assert_eq!(s.len(), 2);
}

#[test]
fn empty_stream_is_finished() {
    let s = StepStream::new(0);
    assert!(s.all_finished());
}
