//! Note requests: adding, reading, updating and templating notes in the
//! device's files.
use vstd::prelude::*;

pub mod req;
pub mod res;

use crate::hal::{DelayMs, I2cBus};
use crate::{same_config, NoteError, NoteState, Notecard};

verus! {

/// How a note template is stored and transferred.
#[derive(Debug, Clone, Copy, PartialEq, Eq, Structural)]
pub enum TemplateFormat {
    Default,
    /// Compact notes are also transferred on low-bandwidth radio links.
    Compact,
}

impl TemplateFormat {
    /// The optional `format` member value this format stands for.
    pub open spec fn format_spec(self) -> Option<&'static str> {
        match self {
            TemplateFormat::Default => None,
            TemplateFormat::Compact => Some("compact"),
        }
    }
}

/// Add a note to a file, creating the file if it does not yet exist. A
/// pre-serialized JSON object may be supplied as the note body.
pub fn add<IOM: I2cBus, D: DelayMs>(
    note: &mut Notecard<IOM>,
    delay: &mut D,
    file: Option<&str>,
    note_id: Option<&str>,
    body: Option<&[u8]>,
    payload: Option<&str>,
    sync: bool,
) -> (r: Result<(), NoteError>)
    requires
        old(note).wf(),
    ensures
        final(note).wf(),
        same_config(final(note)@, old(note)@),
        ({
            let c = (req::Add {
            req: "note.add",
            file: file,
            note: note_id,
            body: body,
            payload: payload,
            sync: Some(sync),
            key: None,
            verify: None,
        }).json();
            &&& (r is Ok ==> final(note)@.state == NoteState::Poll(0)
                && final(note)@.buf =~= c + seq![10u8])
            &&& (old(note)@.state is Request && c.len() + 1 <= old(note)@.cap ==> (r is Ok
                || (r is Err && r->Err_0 is I2cWriteError)))
        }),
{
    let cmd = req::Add {
        req: "note.add",
        file,
        note: note_id,
        body,
        payload,
        sync: Some(sync),
        key: None,
        verify: None,
    };
    let json = cmd.to_json();
    note.request(delay, json.as_slice())
}

/// Update a note in a database file by its identifier, replacing its body
/// and payload.
pub fn update<IOM: I2cBus, D: DelayMs>(
    note: &mut Notecard<IOM>,
    delay: &mut D,
    file: &str,
    note_id: &str,
    body: Option<&[u8]>,
    payload: Option<&str>,
    verify: bool,
) -> (r: Result<(), NoteError>)
    requires
        old(note).wf(),
    ensures
        final(note).wf(),
        same_config(final(note)@, old(note)@),
        ({
            let c = (req::Update {
            req: "note.update",
            file: file,
            note: note_id,
            body: body,
            payload: payload,
            verify: verify,
        }).json();
            &&& (r is Ok ==> final(note)@.state == NoteState::Poll(0)
                && final(note)@.buf =~= c + seq![10u8])
            &&& (old(note)@.state is Request && c.len() + 1 <= old(note)@.cap ==> (r is Ok
                || (r is Err && r->Err_0 is I2cWriteError)))
        }),
{
    let cmd = req::Update { req: "note.update", file, note: note_id, body, payload, verify };
    let json = cmd.to_json();
    note.request(delay, json.as_slice())
}

/// Retrieve a note from a file.
pub fn get<IOM: I2cBus, D: DelayMs>(
    note: &mut Notecard<IOM>,
    delay: &mut D,
    file: &str,
    note_id: &str,
    delete: bool,
    deleted: bool,
) -> (r: Result<(), NoteError>)
    requires
        old(note).wf(),
    ensures
        final(note).wf(),
        same_config(final(note)@, old(note)@),
        ({
            let c = (req::Get {
            req: "note.get",
            file: file,
            note: note_id,
            delete: delete,
            deleted: deleted,
        }).json();
            &&& (r is Ok ==> final(note)@.state == NoteState::Poll(0)
                && final(note)@.buf =~= c + seq![10u8])
            &&& (old(note)@.state is Request && c.len() + 1 <= old(note)@.cap ==> (r is Ok
                || (r is Err && r->Err_0 is I2cWriteError)))
        }),
{
    let cmd = req::Get { req: "note.get", file, note: note_id, delete, deleted };
    let json = cmd.to_json();
    note.request(delay, json.as_slice())
}

/// Delete a note from a database file by its identifier.
pub fn delete<IOM: I2cBus, D: DelayMs>(
    note: &mut Notecard<IOM>,
    delay: &mut D,
    file: &str,
    note_id: &str,
) -> (r: Result<(), NoteError>)
    requires
        old(note).wf(),
    ensures
        final(note).wf(),
        same_config(final(note)@, old(note)@),
        ({
            let c = (req::Delete {
            req: "note.delete",
            file: file,
            note: note_id,
            verify: false,
        }).json();
            &&& (r is Ok ==> final(note)@.state == NoteState::Poll(0)
                && final(note)@.buf =~= c + seq![10u8])
            &&& (old(note)@.state is Request && c.len() + 1 <= old(note)@.cap ==> (r is Ok
                || (r is Err && r->Err_0 is I2cWriteError)))
        }),
{
    let cmd = req::Delete { req: "note.delete", file, note: note_id, verify: false };
    let json = cmd.to_json();
    note.request(delay, json.as_slice())
}

/// Provide the device with a schema for future notes added to a file, so
/// they can be stored as fixed-length records instead of JSON objects. A
/// port, when given, must lie between 1 and 100; anything else is refused
/// as an invalid request before any bus activity.
pub fn template<IOM: I2cBus, D: DelayMs>(
    note: &mut Notecard<IOM>,
    delay: &mut D,
    file: Option<&str>,
    body: Option<&[u8]>,
    length: Option<u32>,
    format: TemplateFormat,
    port: Option<u32>,
    delete: Option<bool>,
) -> (r: Result<(), NoteError>)
    requires
        old(note).wf(),
    ensures
        final(note).wf(),
        same_config(final(note)@, old(note)@),
        (port is Some && (port->Some_0 < 1 || port->Some_0 > 100)) ==> r is Err && r->Err_0
            is InvalidRequest && final(note)@ =~= old(note)@ && final(note).bus() == old(
            note,
        ).bus(),
        ({
            let c = (
        req::Template {
            req: "note.template",
            file: file,
            body: body,
            length: length,
            format: format.format_spec(),
            port: port,
            delete: delete,
        }).json();
            &&& (r is Ok ==> final(note)@.state == NoteState::Poll(0)
                && final(note)@.buf =~= c + seq![10u8])
            &&& ((port is None || (1 <= port->Some_0 <= 100)) && old(note)@.state is Request
                && c.len() + 1 <= old(note)@.cap ==> (r is Ok || (r is Err && r->Err_0
                is I2cWriteError)))
        }),
        // An invalid-request refusal comes only from the port check.
        r is Err && r->Err_0 is InvalidRequest ==> port is Some && (port->Some_0 < 1
            || port->Some_0 > 100),
{
    match port {
        Some(p) => {
            if p < 1 || p > 100 {
                return Err(NoteError::InvalidRequest);
            }
        },
        None => {},
    }
    let format_str = match format {
        TemplateFormat::Default => None,
        TemplateFormat::Compact => Some("compact"),
    };
    let cmd = req::Template {
        req: "note.template",
        file,
        body,
        length,
        format: format_str,
        port,
        delete,
    };
    let json = cmd.to_json();
    note.request(delay, json.as_slice())
}

} // verus!
