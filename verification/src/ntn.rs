//! Non-terrestrial-network requests: satellite connectivity through a
//! paired satellite modem.
use vstd::prelude::*;
use vstd::string::StringSliceAdditionalSpecFns;

pub mod req;
pub mod res;

use crate::hal::{DelayMs, I2cBus};
use crate::{json, same_config, NoteError, NoteState, Notecard};

verus! {

/// Which GPS position a paired satellite modem reports.
#[derive(Debug, Clone, Copy, PartialEq, Eq, Structural)]
pub enum NtnSetGps {
    /// Use the device's own GPS on the satellite modem as well.
    Notecard,
    /// Use the satellite modem's own GPS (the default).
    Starnote,
}

/// Clear the stored satellite-modem pairing so NTN mode can be tested over
/// cellular or wireless again.
pub fn reset<IOM: I2cBus, D: DelayMs>(note: &mut Notecard<IOM>, delay: &mut D) -> (r: Result<
    (),
    NoteError,
>)
    requires
        old(note).wf(),
    ensures
        final(note).wf(),
        same_config(final(note)@, old(note)@),
        ({
            let c = (
        "{\"req\":\"ntn.reset\"}").spec_bytes();
            &&& (r is Ok ==> final(note)@.state == NoteState::Poll(0)
                && final(note)@.buf =~= c + seq![10u8])
            &&& (old(note)@.state is Request && c.len() + 1 <= old(note)@.cap ==> (r is Ok
                || (r is Err && r->Err_0 is I2cWriteError)))
        }),
{
    let mut body: Vec<u8> = Vec::new();
    json::push_lit(&mut body, "{\"req\":\"ntn.reset\"}");
    note.request(delay, body.as_slice())
}

/// Retrieve the status of the satellite connection.
pub fn status<IOM: I2cBus, D: DelayMs>(note: &mut Notecard<IOM>, delay: &mut D) -> (r: Result<
    (),
    NoteError,
>)
    requires
        old(note).wf(),
    ensures
        final(note).wf(),
        same_config(final(note)@, old(note)@),
        ({
            let c = (
        "{\"req\":\"ntn.status\"}").spec_bytes();
            &&& (r is Ok ==> final(note)@.state == NoteState::Poll(0)
                && final(note)@.buf =~= c + seq![10u8])
            &&& (old(note)@.state is Request && c.len() + 1 <= old(note)@.cap ==> (r is Ok
                || (r is Err && r->Err_0 is I2cWriteError)))
        }),
{
    let mut body: Vec<u8> = Vec::new();
    json::push_lit(&mut body, "{\"req\":\"ntn.status\"}");
    note.request(delay, body.as_slice())
}

/// Choose whether the device overrides the paired satellite modem's GPS
/// position with its own.
pub fn gps<IOM: I2cBus, D: DelayMs>(
    note: &mut Notecard<IOM>,
    delay: &mut D,
    gps_source: Option<NtnSetGps>,
) -> (r: Result<(), NoteError>)
    requires
        old(note).wf(),
    ensures
        final(note).wf(),
        same_config(final(note)@, old(note)@),
        ({
            let c = (req::Gps {
            req: "ntn.gps",
            on: match gps_source {
                Some(g) => Some(g is Notecard),
                None => None,
            },
            off: match gps_source {
                Some(g) => Some(g is Starnote),
                None => None,
            },
        }).json();
            &&& (r is Ok ==> final(note)@.state == NoteState::Poll(0)
                && final(note)@.buf =~= c + seq![10u8])
            &&& (old(note)@.state is Request && c.len() + 1 <= old(note)@.cap ==> (r is Ok
                || (r is Err && r->Err_0 is I2cWriteError)))
        }),
{
    let cmd = req::Gps {
        req: "ntn.gps",
        on: match gps_source {
            Some(g) => Some(matches!(g, NtnSetGps::Notecard)),
            None => None,
        },
        off: match gps_source {
            Some(g) => Some(matches!(g, NtnSetGps::Starnote)),
            None => None,
        },
    };
    let body = cmd.to_json();
    note.request(delay, body.as_slice())
}

} // verus!
