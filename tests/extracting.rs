use bincut::{extract_span, run, Command, EndOrLen, Job, RangeError, Span};
use std::path::PathBuf;

#[test]
fn length_terminus() {
    assert_eq!(
        extract_span(10, 2, Some(&EndOrLen::Len(3))),
        Ok(Span { start: 2, len: 3 })
    );
}

#[test]
fn length_clamped_to_source() {
    assert_eq!(
        extract_span(10, 8, Some(&EndOrLen::Len(5))),
        Ok(Span { start: 8, len: 2 })
    );
}

#[test]
fn no_terminus_runs_to_end() {
    assert_eq!(extract_span(10, 5, None), Ok(Span { start: 5, len: 5 }));
}

#[test]
fn start_at_end_gives_nothing() {
    assert_eq!(extract_span(10, 10, None), Ok(Span { start: 10, len: 0 }));
}

#[test]
fn end_terminus_uses_difference() {
    assert_eq!(
        extract_span(10, 2, Some(&EndOrLen::End(6))),
        Ok(Span { start: 2, len: 4 })
    );
    assert_eq!(
        extract_span(10, 0, Some(&EndOrLen::End(20))),
        Ok(Span { start: 0, len: 10 })
    );
}

#[test]
fn start_past_end_is_refused() {
    assert_eq!(extract_span(10, 11, None), Err(RangeError::StartPastEnd));
}

#[test]
fn end_before_start_is_refused() {
    assert_eq!(
        extract_span(10, 5, Some(&EndOrLen::End(3))),
        Err(RangeError::EndBeforeStart)
    );
}

#[test]
fn range_past_end_is_refused() {
    assert_eq!(
        extract_span(10, 5, Some(&EndOrLen::End(12))),
        Err(RangeError::RangePastEnd)
    );
}

#[test]
fn extracted_bytes_match_source() {
    let data: Vec<u8> = (0u8..10).collect();
    let s = extract_span(data.len(), 2, Some(&EndOrLen::Len(3))).unwrap();
    assert_eq!(&data[s.start..s.start + s.len], &[2u8, 3, 4]);
    let s = extract_span(data.len(), 5, None).unwrap();
    assert_eq!(&data[s.start..s.start + s.len], &[5u8, 6, 7, 8, 9]);
}

#[test]
fn run_extract_command() {
    let cmd = Command::Extract {
        path: PathBuf::from("/tmp/in"),
        output_path: PathBuf::from("/tmp/out"),
        start: 2,
        end_or_len: Some(EndOrLen::Len(3)),
        overwrite: false,
    };
    match run(&cmd, 10) {
        Ok(Job::Extract(s)) => assert_eq!(s, Span { start: 2, len: 3 }),
        other => panic!("unexpected {other:?}"),
    }
}

#[test]
fn run_extract_past_end() {
    let cmd = Command::Extract {
        path: PathBuf::from("/tmp/in"),
        output_path: PathBuf::from("/tmp/out"),
        start: 11,
        end_or_len: None,
        overwrite: false,
    };
    assert!(matches!(run(&cmd, 10), Err(RangeError::StartPastEnd)));
}
