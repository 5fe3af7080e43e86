//! One contact session: the record being edited, the vCard text that was
//! last generated from it, and the bitmap of that text.
//!
//! Text and bitmap are made together and replaced together, so a bitmap
//! that is present is always the bitmap of the text beside it.

use vstd::prelude::*;
use crate::contact::{BusinessContact, empty_contact};
use crate::export::{ExportError, export_image, export_outcome};
use crate::raster::{GrayImage, QrBitmap, QrBitmapView, luma_of, renderable, rendered, try_render};
use crate::vcard::{ContactView, lemma_vcard_text_not_empty, vcard_text};

verus! {

/// Where a session stands.
#[derive(Clone, Copy, PartialEq, Eq, Structural, Debug)]
pub enum Stage {
    /// Nothing has been generated yet.
    Empty,
    /// Text and bitmap are there, and this text has not been exported.
    Generated,
    /// The text that is there has been exported at least once.
    Exported,
}

/// What the user asked for, or what the shell reports back.
#[derive(Debug)]
pub enum Command {
    /// Encode the record and draw the symbol of its text.
    Generate,
    /// Copy the text to the clipboard.
    Copy,
    /// Export the symbol as a file.
    Export,
    /// The file of an export was written, or could not be written for the reason given.
    ExportFinished(Result<(), String>),
}

/// What the shell has to do after a command.
#[derive(Debug)]
pub enum Effect {
    /// Nothing.
    Nothing,
    /// Text and bitmap are new: show them.
    Show,
    /// The text of the record cannot be drawn as a symbol; the session is as it was.
    Unrenderable,
    /// Put this text on the clipboard.
    Clipboard(String),
    /// Write this image to the export path, then report with `Command::ExportFinished`.
    Write(GrayImage),
    /// The export is done: tell the user.
    Saved,
    /// The export did not happen: tell the user why.
    Failed(ExportError),
}

/// A session as a mathematical value.
pub struct SessionView {
    pub contact: ContactView,
    pub text: Seq<char>,
    pub bitmap: Option<QrBitmapView>,
    pub exported: bool,
}

impl SessionView {
    /// Text and bitmap belong together: there is a bitmap exactly when
    /// there is text, it is the bitmap of that text, and only text that is
    /// there can have been exported.
    pub open spec fn consistent(self) -> bool {
        &&& (self.text.len() > 0 <==> self.bitmap is Some)
        &&& (self.bitmap matches Some(b) ==> renderable(self.text) && b == rendered(self.text))
        &&& (self.exported ==> self.text.len() > 0)
    }

    /// The session after `command`. Only two commands change it: a
    /// `Generate` whose text can be drawn replaces text and bitmap and
    /// clears the export mark; the report of a successful export sets the
    /// mark, if there is text.
    pub open spec fn after(self, command: Command) -> SessionView {
        match command {
            Command::Generate => {
                let text = vcard_text(self.contact);
                if renderable(text) {
                    SessionView {
                        contact: self.contact,
                        text,
                        bitmap: Some(rendered(text)),
                        exported: false,
                    }
                } else {
                    self
                }
            },
            Command::ExportFinished(Ok(_)) => if self.text.len() > 0 {
                SessionView { exported: true, ..self }
            } else {
                self
            },
            _ => self,
        }
    }

    pub open spec fn stage(self) -> Stage {
        if self.text.len() == 0 {
            Stage::Empty
        } else if self.exported {
            Stage::Exported
        } else {
            Stage::Generated
        }
    }
}

/// No command parts text and bitmap: a session in which they belong
/// together is such a session after every command.
pub proof fn lemma_commands_keep_consistent(session: SessionView, command: Command)
    requires
        session.consistent(),
    ensures
        session.after(command).consistent(),
{
    lemma_vcard_text_not_empty(session.contact);
}

/// How the stages follow one another. A `Generate` whose text can be drawn
/// leads to `Generated` from every stage; the report of a written export
/// leads from `Generated` or `Exported` to `Exported`; nothing else changes
/// the stage, and nothing leads back to `Empty`.
pub proof fn lemma_stages(session: SessionView, command: Command)
    requires
        session.consistent(),
    ensures
        session.after(command).stage() == match command {
            Command::Generate => if renderable(vcard_text(session.contact)) {
                Stage::Generated
            } else {
                session.stage()
            },
            Command::ExportFinished(Ok(_)) => if session.stage() == Stage::Empty {
                Stage::Empty
            } else {
                Stage::Exported
            },
            _ => session.stage(),
        },
        session.stage() != Stage::Empty ==> session.after(command).stage() != Stage::Empty,
{
    lemma_vcard_text_not_empty(session.contact);
}

/// A text and its bitmap, made together and never changed afterwards, and
/// whether this text has been exported.
#[derive(Debug)]
struct Drawn {
    text: String,
    bitmap: QrBitmap,
    exported: bool,
}

impl Drawn {
    #[verifier::type_invariant]
    spec fn inv(self) -> bool {
        &&& self.text@.len() > 0
        &&& renderable(self.text@)
        &&& self.bitmap@ == rendered(self.text@)
    }
}

/// The state of one contact session.
#[derive(Debug)]
pub struct Session {
    contact: BusinessContact,
    drawn: Option<Drawn>,
}

impl View for Session {
    type V = SessionView;

    closed spec fn view(&self) -> SessionView {
        SessionView {
            contact: self.contact@,
            text: match self.drawn {
                Some(drawn) => drawn.text@,
                None => Seq::empty(),
            },
            bitmap: match self.drawn {
                Some(drawn) => Some(drawn.bitmap@),
                None => None,
            },
            exported: match self.drawn {
                Some(drawn) => drawn.exported,
                None => false,
            },
        }
    }
}

impl Session {
    /// A session with an empty record, in which nothing has been generated.
    pub fn new() -> (session: Session)
        ensures
            session@ == (SessionView {
                contact: empty_contact(),
                text: Seq::empty(),
                bitmap: None,
                exported: false,
            }),
            session@.consistent(),
    {
        Session { contact: BusinessContact::default(), drawn: None }
    }

    pub fn contact(&self) -> (contact: &BusinessContact)
        ensures
            contact@ == self@.contact,
    {
        &self.contact
    }

    /// The record, for editing. Text and bitmap stay as they are until
    /// the next `generate`.
    pub fn contact_mut(&mut self) -> (contact: &mut BusinessContact)
        ensures
            contact@ == old(self)@.contact,
            final(self)@ == (SessionView { contact: final(contact)@, ..old(self)@ }),
    {
        &mut self.contact
    }

    /// The text that was last generated; empty before the first `generate`.
    pub fn vcard_text(&self) -> (text: &str)
        ensures
            text@ == self@.text,
            self@.consistent(),
    {
        match &self.drawn {
            Some(drawn) => {
                proof {
                    use_type_invariant(drawn);
                }
                drawn.text.as_str()
            },
            None => {
                proof {
                    reveal_strlit("");
                }
                ""
            },
        }
    }

    /// The bitmap of the text that was last generated.
    pub fn bitmap(&self) -> (bitmap: Option<&QrBitmap>)
        ensures
            bitmap is Some <==> self@.bitmap is Some,
            bitmap matches Some(b) ==> Some(b@) == self@.bitmap,
            self@.consistent(),
    {
        match &self.drawn {
            Some(drawn) => {
                proof {
                    use_type_invariant(drawn);
                }
                Some(&drawn.bitmap)
            },
            None => None,
        }
    }

    pub fn stage(&self) -> (stage: Stage)
        ensures
            stage == self@.stage(),
            self@.consistent(),
    {
        match &self.drawn {
            None => Stage::Empty,
            Some(drawn) => {
                proof {
                    use_type_invariant(drawn);
                }
                if drawn.exported {
                    Stage::Exported
                } else {
                    Stage::Generated
                }
            },
        }
    }

    /// Encodes the record and draws its text. Text and bitmap are replaced
    /// together, and the new text counts as not exported. Where the text
    /// cannot be drawn, `false` is returned and the session is as it was.
    pub fn generate(&mut self) -> (ok: bool)
        ensures
            ok == renderable(vcard_text(old(self)@.contact)),
            final(self)@ == old(self)@.after(Command::Generate),
            final(self)@.consistent(),
    {
        proof {
            if let Some(drawn) = &self.drawn {
                use_type_invariant(drawn);
            }
        }
        let text = self.contact.generate_vcard();
        match try_render(text.as_str()) {
            Some(bitmap) => {
                proof {
                    lemma_vcard_text_not_empty(self.contact@);
                }
                self.drawn = Some(Drawn { text, bitmap, exported: false });
                true
            },
            None => false,
        }
    }

    /// The text to put on the clipboard: the text that was last generated,
    /// or nothing before the first `generate`.
    pub fn clipboard_text(&self) -> (text: Option<String>)
        ensures
            text is Some <==> self@.text.len() > 0,
            text matches Some(t) ==> t@ == self@.text,
    {
        match &self.drawn {
            Some(drawn) => {
                proof {
                    use_type_invariant(drawn);
                }
                Some(drawn.text.clone())
            },
            None => None,
        }
    }

    /// The image to write for an export. It is drawn anew from the text;
    /// the bitmap on display is not used. With no text, the export is
    /// refused and nothing is drawn.
    pub fn export(&self) -> (image: Result<GrayImage, ExportError>)
        ensures
            image is Err <==> self@.text.len() == 0,
            image matches Err(e) ==> e == ExportError::EmptyInput,
            image matches Ok(img) ==> Some(img@) == luma_of(self@.text) && img@.black_and_white(),
    {
        export_image(self.vcard_text())
    }

    /// Takes note of how the writing of an export ended. After a success
    /// the text counts as exported; after a failure the session is as it
    /// was, and the reason is handed on. A success that is reported while
    /// there is no text is refused like an export without text.
    pub fn finish_export(&mut self, written: Result<(), String>) -> (outcome: Result<(), ExportError>)
        ensures
            final(self)@ == old(self)@.after(Command::ExportFinished(written)),
            final(self)@.consistent(),
            match written {
                Ok(_) => if old(self)@.text.len() > 0 {
                    outcome is Ok
                } else {
                    outcome == Err::<(), ExportError>(ExportError::EmptyInput)
                },
                Err(detail) => outcome == Err::<(), ExportError>(ExportError::Io(detail)),
            },
    {
        proof {
            if let Some(drawn) = &self.drawn {
                use_type_invariant(drawn);
            }
        }
        match export_outcome(written) {
            Ok(_) => {
                match &mut self.drawn {
                    Some(drawn) => {
                        drawn.exported = true;
                        Ok(())
                    },
                    None => Err(ExportError::EmptyInput),
                }
            },
            Err(error) => Err(error),
        }
    }

    /// One step of the session: carries out `command` as far as the session
    /// itself can, and says what is left for the shell to do.
    pub fn handle(&mut self, command: Command) -> (effect: Effect)
        ensures
            final(self)@ == old(self)@.after(command),
            final(self)@.consistent(),
            match command {
                Command::Generate => if renderable(vcard_text(old(self)@.contact)) {
                    effect is Show
                } else {
                    effect is Unrenderable
                },
                Command::Copy => if old(self)@.text.len() > 0 {
                    effect matches Effect::Clipboard(text) && text@ == old(self)@.text
                } else {
                    effect is Nothing
                },
                Command::Export => if old(self)@.text.len() > 0 {
                    effect matches Effect::Write(image) && Some(image@) == luma_of(old(self)@.text)
                } else {
                    effect == Effect::Failed(ExportError::EmptyInput)
                },
                Command::ExportFinished(Ok(_)) => if old(self)@.text.len() > 0 {
                    effect is Saved
                } else {
                    effect == Effect::Failed(ExportError::EmptyInput)
                },
                Command::ExportFinished(Err(detail)) => effect == Effect::Failed(
                    ExportError::Io(detail),
                ),
            },
    {
        proof {
            if let Some(drawn) = &self.drawn {
                use_type_invariant(drawn);
            }
        }
        match command {
            Command::Generate => {
                if self.generate() {
                    Effect::Show
                } else {
                    Effect::Unrenderable
                }
            },
            Command::Copy => {
                match self.clipboard_text() {
                    Some(text) => Effect::Clipboard(text),
                    None => Effect::Nothing,
                }
            },
            Command::Export => {
                match self.export() {
                    Ok(image) => Effect::Write(image),
                    Err(error) => Effect::Failed(error),
                }
            },
            Command::ExportFinished(written) => {
                match self.finish_export(written) {
                    Ok(_) => Effect::Saved,
                    Err(error) => Effect::Failed(error),
                }
            },
        }
    }
}

} // verus!
