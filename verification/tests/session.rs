use vcard_qr::export::ExportError;
use vcard_qr::raster::{rasterize, render};
use vcard_qr::session::{Command, Effect, Session, Stage};

fn jane() -> Session {
    let mut session = Session::new();
    session.contact_mut().first_name = "Jane".to_string();
    session.contact_mut().last_name = "Doe".to_string();
    session
}

#[test]
fn new_session_is_empty() {
    let session = Session::new();
    assert_eq!(session.stage(), Stage::Empty);
    assert_eq!(session.vcard_text(), "");
    assert!(session.bitmap().is_none());
    assert_eq!(session.contact().first_name, "");
    assert_eq!(session.clipboard_text(), None);
}

#[test]
fn generate_sets_text_and_bitmap_together() {
    let mut session = jane();
    assert!(session.generate());
    assert_eq!(session.stage(), Stage::Generated);
    assert_eq!(session.vcard_text(), "BEGIN:VCARD\nVERSION:3.0\nN:Doe;Jane;;;\nFN:Jane Doe\nEND:VCARD");
    let bitmap = session.bitmap().unwrap();
    assert_eq!(bitmap.rgba(), render(session.vcard_text()).rgba());
}

#[test]
fn editing_leaves_text_and_bitmap_until_the_next_generate() {
    let mut session = jane();
    assert!(session.generate());
    let text = session.vcard_text().to_string();
    let pixels = session.bitmap().unwrap().rgba().clone();
    session.contact_mut().organization = "Acme".to_string();
    assert_eq!(session.vcard_text(), text);
    assert_eq!(session.bitmap().unwrap().rgba(), &pixels);
    assert!(session.generate());
    assert_eq!(
        session.vcard_text(),
        "BEGIN:VCARD\nVERSION:3.0\nN:Doe;Jane;;;\nFN:Jane Doe\nORG:Acme\nEND:VCARD"
    );
    assert_eq!(session.bitmap().unwrap().rgba(), render(session.vcard_text()).rgba());
    assert_ne!(session.bitmap().unwrap().rgba(), &pixels);
}

#[test]
fn a_record_too_long_to_draw_leaves_the_session_as_it_was() {
    let mut session = jane();
    assert!(session.generate());
    let text = session.vcard_text().to_string();
    session.contact_mut().note = "n".repeat(5000);
    assert!(!session.generate());
    assert_eq!(session.vcard_text(), text);
    assert_eq!(session.stage(), Stage::Generated);
    assert_eq!(session.bitmap().unwrap().rgba(), render(&text).rgba());
}

#[test]
fn a_record_too_long_to_draw_keeps_an_empty_session_empty() {
    let mut session = Session::new();
    session.contact_mut().note = "n".repeat(5000);
    assert!(!session.generate());
    assert_eq!(session.stage(), Stage::Empty);
    assert!(session.bitmap().is_none());
}

#[test]
fn clipboard_text_is_the_generated_text() {
    let mut session = jane();
    assert_eq!(session.clipboard_text(), None);
    assert!(session.generate());
    assert_eq!(session.clipboard_text(), Some(session.vcard_text().to_string()));
}

#[test]
fn export_without_text_is_refused() {
    let session = Session::new();
    assert_eq!(session.export().unwrap_err(), ExportError::EmptyInput);
}

#[test]
fn export_draws_the_text_anew() {
    let mut session = jane();
    assert!(session.generate());
    let image = session.export().unwrap();
    let again = rasterize(session.vcard_text()).unwrap();
    assert_eq!(image.width(), 512);
    assert_eq!(image.height(), 512);
    assert_eq!(image.samples(), again.samples());
}

#[test]
fn a_written_export_marks_the_session() {
    let mut session = jane();
    assert!(session.generate());
    assert_eq!(session.finish_export(Ok(())), Ok(()));
    assert_eq!(session.stage(), Stage::Exported);
    // exporting again is allowed
    assert!(session.export().is_ok());
    assert_eq!(session.finish_export(Ok(())), Ok(()));
    assert_eq!(session.stage(), Stage::Exported);
}

#[test]
fn a_failed_export_leaves_the_stage() {
    let mut session = jane();
    assert!(session.generate());
    assert_eq!(
        session.finish_export(Err("read-only file system".to_string())),
        Err(ExportError::Io("read-only file system".to_string()))
    );
    assert_eq!(session.stage(), Stage::Generated);
    assert_eq!(session.finish_export(Ok(())), Ok(()));
    assert_eq!(
        session.finish_export(Err("disk full".to_string())),
        Err(ExportError::Io("disk full".to_string()))
    );
    assert_eq!(session.stage(), Stage::Exported);
}

#[test]
fn a_report_without_text_is_refused() {
    let mut session = Session::new();
    assert_eq!(session.finish_export(Ok(())), Err(ExportError::EmptyInput));
    assert_eq!(session.stage(), Stage::Empty);
}

#[test]
fn generating_again_clears_the_export_mark() {
    let mut session = jane();
    assert!(session.generate());
    assert_eq!(session.finish_export(Ok(())), Ok(()));
    assert_eq!(session.stage(), Stage::Exported);
    assert!(session.generate());
    assert_eq!(session.stage(), Stage::Generated);
}

#[test]
fn commands_walk_through_the_stages() {
    let mut session = jane();
    assert!(matches!(session.handle(Command::Copy), Effect::Nothing));
    match session.handle(Command::Export) {
        Effect::Failed(error) => assert_eq!(error, ExportError::EmptyInput),
        other => panic!("unexpected effect {:?}", other),
    }
    assert!(matches!(session.handle(Command::Generate), Effect::Show));
    assert_eq!(session.stage(), Stage::Generated);
    match session.handle(Command::Copy) {
        Effect::Clipboard(text) => assert_eq!(text, session.vcard_text()),
        other => panic!("unexpected effect {:?}", other),
    }
    match session.handle(Command::Export) {
        Effect::Write(image) => {
            assert_eq!(image.samples(), rasterize(session.vcard_text()).unwrap().samples())
        }
        other => panic!("unexpected effect {:?}", other),
    }
    assert_eq!(session.stage(), Stage::Generated);
    match session.handle(Command::ExportFinished(Err("no space".to_string()))) {
        Effect::Failed(error) => {
            assert_eq!(error.message(), "Failed to save QR code: no space")
        }
        other => panic!("unexpected effect {:?}", other),
    }
    assert_eq!(session.stage(), Stage::Generated);
    assert!(matches!(session.handle(Command::ExportFinished(Ok(()))), Effect::Saved));
    assert_eq!(session.stage(), Stage::Exported);
    assert!(matches!(session.handle(Command::Generate), Effect::Show));
    assert_eq!(session.stage(), Stage::Generated);
}

#[test]
fn an_undrawable_record_is_reported() {
    let mut session = Session::new();
    session.contact_mut().note = "n".repeat(5000);
    assert!(matches!(session.handle(Command::Generate), Effect::Unrenderable));
    assert_eq!(session.stage(), Stage::Empty);
}
