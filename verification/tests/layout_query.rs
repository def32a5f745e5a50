use shortcuts::layout_query::{
    decode_first_char, InputSource, LayoutQuery, QueryAction, QueryReply, TranslateRequest,
};

/// Answers every question from what is listed, and counts copies and releases.
fn ask(
    keycode: u32,
    sources: &[InputSource],
    layouts: &[InputSource],
    bytes: bool,
    units: &[u16],
) -> (Option<char>, Vec<QueryAction>) {
    let mut query = LayoutQuery::new(keycode);
    let mut actions = Vec::new();
    let mut current = None;
    loop {
        let action = query.action();
        actions.push(action);
        let reply = match action {
            QueryAction::Copy(source) => {
                assert!(current.is_none());
                if sources.contains(&source) {
                    current = Some(source);
                }
                QueryReply::Copied(current.is_some())
            }
            QueryAction::ReadLayout => QueryReply::Layout(layouts.contains(&current.unwrap())),
            QueryAction::ReadBytes => QueryReply::Bytes(bytes),
            QueryAction::Translate(_) => QueryReply::Translated(units.to_vec()),
            QueryAction::Release => {
                assert!(current.is_some());
                current = None;
                QueryReply::Released
            }
            QueryAction::Finish(answer) => {
                assert!(current.is_none());
                return (answer, actions);
            }
        };
        query.advance(reply);
    }
}

const ALL: [InputSource; 3] =
    [InputSource::Current, InputSource::CurrentLayout, InputSource::AsciiCapable];

#[test]
fn current_source_answers() {
    let (answer, actions) = ask(7, &ALL, &ALL, true, &[0x61]);
    assert_eq!(answer, Some('a'));
    assert_eq!(
        actions,
        vec![
            QueryAction::Copy(InputSource::Current),
            QueryAction::ReadLayout,
            QueryAction::ReadBytes,
            QueryAction::Translate(TranslateRequest {
                code: 7,
                key_action: 0,
                modifier_state: 0,
                options: 1 << 31,
                max_length: 4,
            }),
            QueryAction::Release,
            QueryAction::Finish(Some('a')),
        ]
    );
}

#[test]
fn sources_without_layout_are_released_and_passed_over() {
    let (answer, actions) = ask(7, &ALL, &[InputSource::AsciiCapable], true, &[0x62]);
    assert_eq!(answer, Some('b'));
    assert_eq!(actions.len(), 12);
    assert_eq!(actions[2], QueryAction::Release);
    assert_eq!(actions[3], QueryAction::Copy(InputSource::CurrentLayout));
    assert_eq!(actions[5], QueryAction::Release);
    assert_eq!(actions[6], QueryAction::Copy(InputSource::AsciiCapable));
}

#[test]
fn missing_sources_are_passed_over() {
    let (answer, actions) = ask(7, &[InputSource::CurrentLayout], &ALL, true, &[0x63]);
    assert_eq!(answer, Some('c'));
    assert_eq!(actions[1], QueryAction::Copy(InputSource::CurrentLayout));
    let (answer, actions) = ask(7, &[], &ALL, true, &[0x63]);
    assert_eq!(answer, None);
    assert_eq!(actions.len(), 4);
}

#[test]
fn no_layout_and_no_bytes_have_no_answer() {
    assert_eq!(ask(7, &ALL, &[], true, &[0x61]).0, None);
    let (answer, actions) = ask(7, &ALL, &ALL, false, &[0x61]);
    assert_eq!(answer, None);
    assert_eq!(actions[3], QueryAction::Release);
    assert_eq!(actions.len(), 5);
}

#[test]
fn key_codes_are_cut_to_16_bits() {
    let (_, actions) = ask(0x2_0005, &ALL, &ALL, true, &[]);
    assert!(matches!(actions[3], QueryAction::Translate(request) if request.code == 5));
}

#[test]
fn reply_to_another_question_changes_nothing() {
    let mut query = LayoutQuery::new(1);
    query.advance(QueryReply::Released);
    query.advance(QueryReply::Layout(true));
    query.advance(QueryReply::Bytes(true));
    query.advance(QueryReply::Translated(vec![0x61]));
    assert_eq!(query.action(), QueryAction::Copy(InputSource::Current));
    for _ in 0..3 {
        query.advance(QueryReply::Copied(false));
    }
    query.advance(QueryReply::Copied(true));
    assert_eq!(query.action(), QueryAction::Finish(None));
}

#[test]
fn first_character_is_decoded() {
    assert_eq!(decode_first_char(&[]), None);
    assert_eq!(decode_first_char(&[0x41]), Some('A'));
    assert_eq!(decode_first_char(&[0xE9, 0x41]), Some('\u{e9}'));
    assert_eq!(decode_first_char(&[0xD83D, 0xDE00, 0x41]), Some('\u{1F600}'));
    assert_eq!(decode_first_char(&[0xDBFF, 0xDFFF]), Some('\u{10FFFF}'));
    assert_eq!(decode_first_char(&[0xD800, 0xDC00]), Some('\u{10000}'));
    assert_eq!(decode_first_char(&[0xFFFF]), Some('\u{FFFF}'));
    assert_eq!(decode_first_char(&[0]), Some('\0'));
}

#[test]
fn lone_surrogate_anywhere_has_no_character() {
    assert_eq!(decode_first_char(&[0xD83D]), None);
    assert_eq!(decode_first_char(&[0xDE00]), None);
    assert_eq!(decode_first_char(&[0x41, 0xD83D]), None);
    assert_eq!(decode_first_char(&[0x41, 0xDE00, 0x42]), None);
    assert_eq!(decode_first_char(&[0xD83D, 0xD83D]), None);
}
