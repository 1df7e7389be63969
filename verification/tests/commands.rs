use clip_paste::commands::{
    check_permission, clipboard_request, insert_and_paste, write_clipboard, InsertRequest,
    InsertStage,
};
use clip_paste::paste::{PasteRequest, PasteStage, SourceState, TapLocation};
use clip_paste::platform::Platform;

fn drive(
    platform: Platform,
    trusted: bool,
    text: &str,
    replies: Vec<Result<(), String>>,
) -> (Vec<InsertRequest>, InsertStage) {
    let mut stage = InsertStage::start(platform, text.to_string());
    let mut trace = Vec::new();
    for reply in replies {
        match stage.request() {
            Some(request) => {
                trace.push(request);
                stage = insert_and_paste(platform, trusted, stage, reply);
            }
            None => break,
        }
    }
    (trace, stage)
}

fn all_ok(count: usize) -> Vec<Result<(), String>> {
    (0..count).map(|_| Ok(())).collect()
}

fn is_paste_request(request: &InsertRequest) -> bool {
    matches!(request, InsertRequest::Paste(_))
}

#[test]
fn check_permission_reports_the_grant_where_there_is_a_gate() {
    assert!(check_permission(Platform::MacOs, true));
    assert!(!check_permission(Platform::MacOs, false));
}

#[test]
fn check_permission_is_granted_where_there_is_no_gate() {
    assert!(check_permission(Platform::Other, true));
    assert!(check_permission(Platform::Other, false));
}

#[test]
fn clipboard_request_asks_for_the_write_of_the_text() {
    assert_eq!(
        clipboard_request("hello".to_string()),
        InsertRequest::WriteClipboard("hello".to_string())
    );
    assert_eq!(clipboard_request(String::new()), InsertRequest::WriteClipboard(String::new()));
}

#[test]
fn write_clipboard_passes_success_on() {
    assert_eq!(write_clipboard(Ok(())), Ok(()));
}

#[test]
fn write_clipboard_names_the_operation_in_its_error() {
    assert_eq!(
        write_clipboard(Err("clipboard is busy".to_string())),
        Err("Failed to write to clipboard: clipboard is busy".to_string())
    );
    assert_eq!(
        write_clipboard(Err(String::new())),
        Err("Failed to write to clipboard: ".to_string())
    );
    assert_eq!(
        write_clipboard(Err("é→ü".to_string())),
        Err("Failed to write to clipboard: é→ü".to_string())
    );
}

#[test]
fn an_insertion_starts_with_the_write_of_its_text() {
    let stage = InsertStage::start(Platform::MacOs, "hello".to_string());
    assert_eq!(stage, InsertStage::WriteClipboard("hello".to_string()));
    assert_eq!(stage.request(), Some(InsertRequest::WriteClipboard("hello".to_string())));
    assert_eq!(stage.outcome(), None);
    let other = InsertStage::start(Platform::MacOs, "é→ü\n".to_string());
    assert_eq!(other.request(), Some(InsertRequest::WriteClipboard("é→ü\n".to_string())));
}

#[test]
fn an_insertion_that_succeeds_follows_the_script() {
    let (trace, end) = drive(Platform::MacOs, true, "hello", all_ok(9));
    assert_eq!(
        trace,
        vec![
            InsertRequest::WriteClipboard("hello".to_string()),
            InsertRequest::HideWindow,
            InsertRequest::RestoreForeground,
            InsertRequest::Paste(PasteRequest::CreateSource { state: SourceState::CombinedSession }),
            InsertRequest::Paste(PasteRequest::CreateKeyEvent {
                key_code: 9,
                key_down: true,
                flags: Some(0x0010_0000),
            }),
            InsertRequest::Paste(PasteRequest::CreateKeyEvent {
                key_code: 9,
                key_down: false,
                flags: None,
            }),
            InsertRequest::Paste(PasteRequest::PostKeyEvent { key_down: true, tap: TapLocation::Hid }),
            InsertRequest::Paste(PasteRequest::PostKeyEvent { key_down: false, tap: TapLocation::Hid }),
            InsertRequest::Paste(PasteRequest::Settle { millis: 50 }),
        ]
    );
    assert_eq!(end, InsertStage::Finished(Ok(())));
    assert_eq!(end.outcome(), Some(Ok(())));
    assert_eq!(end.request(), None);
}

#[test]
fn a_failed_clipboard_write_ends_the_insertion_at_once() {
    let mut replies = all_ok(9);
    replies[0] = Err("denied".to_string());
    for trusted in [true, false] {
        let (trace, end) = drive(Platform::MacOs, trusted, "hello", replies.clone());
        assert_eq!(trace, vec![InsertRequest::WriteClipboard("hello".to_string())]);
        assert_eq!(
            end.outcome(),
            Some(Err("Failed to write to clipboard: denied".to_string()))
        );
    }
}

#[test]
fn a_failed_hide_or_restore_is_not_held_against_the_insertion() {
    let mut replies = all_ok(9);
    replies[1] = Err("no window".to_string());
    replies[2] = Err("app gone".to_string());
    let (trace, end) = drive(Platform::MacOs, true, "hello", replies);
    assert_eq!(trace.len(), 9);
    assert_eq!(end.outcome(), Some(Ok(())));
}

#[test]
fn an_insertion_elsewhere_is_refused_before_any_request() {
    for trusted in [true, false] {
        let stage = InsertStage::start(Platform::Other, "hello".to_string());
        assert_eq!(
            stage,
            InsertStage::Finished(Err("Paste not supported on this platform".to_string()))
        );
        assert_eq!(stage.request(), None);
        let mut replies = all_ok(9);
        replies[0] = Err("denied".to_string());
        for replies in [all_ok(9), replies] {
            let (trace, end) = drive(Platform::Other, trusted, "hello", replies);
            assert_eq!(trace, Vec::<InsertRequest>::new());
            assert_eq!(
                end.outcome(),
                Some(Err("Paste not supported on this platform".to_string()))
            );
        }
    }
}

#[test]
fn an_insertion_without_the_grant_ends_with_the_permission_error() {
    let (trace, end) = drive(Platform::MacOs, false, "hello", all_ok(9));
    assert_eq!(
        trace,
        vec![
            InsertRequest::WriteClipboard("hello".to_string()),
            InsertRequest::HideWindow,
            InsertRequest::RestoreForeground,
        ]
    );
    assert!(!trace.iter().any(is_paste_request));
    assert_eq!(end, InsertStage::Finished(Err("Accessibility permission not granted".to_string())));
    assert_eq!(end.outcome(), Some(Err("Accessibility permission not granted".to_string())));
}

#[test]
fn a_failed_construction_gives_the_insertion_its_error() {
    let expected = [
        (3, "Failed to create event source"),
        (4, "Failed to create key down event"),
        (5, "Failed to create key up event"),
    ];
    for (failing, message) in expected {
        let mut replies = all_ok(9);
        replies[failing] = Err("refused by the system".to_string());
        let (trace, end) = drive(Platform::MacOs, true, "hello", replies);
        assert_eq!(trace.len(), failing + 1);
        assert!(trace
            .iter()
            .all(|request| !matches!(request, InsertRequest::Paste(PasteRequest::PostKeyEvent { .. }))));
        assert_eq!(end.outcome(), Some(Err(message.to_string())));
    }
}

#[test]
fn pending_insertion_stages_have_no_outcome() {
    let mut stage = InsertStage::start(Platform::MacOs, "hello".to_string());
    for _ in 0..9 {
        assert_eq!(stage.outcome(), None);
        assert!(stage.request().is_some());
        stage = insert_and_paste(Platform::MacOs, true, stage, Ok(()));
    }
    assert_eq!(stage.request(), None);
    assert_eq!(stage.outcome(), Some(Ok(())));
}

#[test]
fn a_simulation_that_ends_finishes_the_insertion() {
    let last = InsertStage::Paste(PasteStage::Settle);
    assert_eq!(
        insert_and_paste(Platform::MacOs, true, last, Ok(())),
        InsertStage::Finished(Ok(()))
    );
    let first = InsertStage::Paste(PasteStage::CreateSource);
    assert_eq!(
        insert_and_paste(Platform::MacOs, true, first, Err(String::new())),
        InsertStage::Finished(Err("Failed to create event source".to_string()))
    );
    let first = InsertStage::Paste(PasteStage::CreateSource);
    assert_eq!(
        insert_and_paste(Platform::MacOs, true, first, Ok(())),
        InsertStage::Paste(PasteStage::CreateKeyDown)
    );
    assert_eq!(
        insert_and_paste(Platform::MacOs, false, InsertStage::RestoreForeground, Ok(())),
        InsertStage::Finished(Err("Accessibility permission not granted".to_string()))
    );
    assert_eq!(
        insert_and_paste(Platform::MacOs, true, InsertStage::RestoreForeground, Ok(())),
        InsertStage::Paste(PasteStage::CreateSource)
    );
}

#[test]
fn a_finished_insertion_stays_finished() {
    let done =
        insert_and_paste(Platform::MacOs, true, InsertStage::Finished(Ok(())), Err("x".to_string()));
    assert_eq!(done, InsertStage::Finished(Ok(())));
    let failed = insert_and_paste(
        Platform::MacOs,
        true,
        InsertStage::Finished(Err("earlier".to_string())),
        Ok(()),
    );
    assert_eq!(failed, InsertStage::Finished(Err("earlier".to_string())));
}

#[test]
fn a_finished_simulation_inside_an_insertion_reads_as_finished() {
    let stage = InsertStage::Paste(PasteStage::Finished(Ok(())));
    assert_eq!(stage.request(), None);
    assert_eq!(stage.outcome(), Some(Ok(())));
    assert_eq!(
        insert_and_paste(Platform::MacOs, true, stage, Ok(())),
        InsertStage::Finished(Ok(()))
    );
}
