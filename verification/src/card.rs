//! Card requests: the device's own status, time, location and firmware
//! handling.
use vstd::prelude::*;
use vstd::string::StringSliceAdditionalSpecFns;

pub mod req;
pub mod res;

use crate::hal::{DelayMs, I2cBus};
use crate::{json, same_config, NoteError, NoteState, Notecard};

verus! {

/// The transport method the device uses to reach its cloud service.
#[derive(Debug, Clone, Copy, PartialEq, Eq, Structural)]
pub enum Transport {
    Reset,
    WifiCell,
    Wifi,
    Cell,
    NTN,
    WifiNTN,
    CellNTN,
    WifiCellNTN,
}

impl Transport {
    /// The wire name of the transport method.
    pub open spec fn str_spec(self) -> Seq<char> {
        match self {
            Transport::Reset => ("-")@,
            Transport::WifiCell => ("wifi-cell")@,
            Transport::Wifi => ("wifi")@,
            Transport::Cell => ("cell")@,
            Transport::NTN => ("ntn")@,
            Transport::WifiNTN => ("wifi-ntn")@,
            Transport::CellNTN => ("cell-ntn")@,
            Transport::WifiCellNTN => ("wifi-cell-ntn")@,
        }
    }

    /// The bytes of the wire name of the transport method.
    pub open spec fn name_bytes(self) -> Seq<u8> {
        match self {
            Transport::Reset => ("-").spec_bytes(),
            Transport::WifiCell => ("wifi-cell").spec_bytes(),
            Transport::Wifi => ("wifi").spec_bytes(),
            Transport::Cell => ("cell").spec_bytes(),
            Transport::NTN => ("ntn").spec_bytes(),
            Transport::WifiNTN => ("wifi-ntn").spec_bytes(),
            Transport::CellNTN => ("cell-ntn").spec_bytes(),
            Transport::WifiCellNTN => ("wifi-cell-ntn").spec_bytes(),
        }
    }

    /// The wire name of the transport method.
    pub fn str(&self) -> (r: &'static str)
        ensures
            r@ == self.str_spec(),
            r.spec_bytes() == self.name_bytes(),
    {
        match self {
            Transport::Reset => "-",
            Transport::WifiCell => "wifi-cell",
            Transport::Wifi => "wifi",
            Transport::Cell => "cell",
            Transport::NTN => "ntn",
            Transport::WifiNTN => "wifi-ntn",
            Transport::CellNTN => "cell-ntn",
            Transport::WifiCellNTN => "wifi-cell-ntn",
        }
    }
}

/// Retrieve current date and time information.
pub fn time<IOM: I2cBus, D: DelayMs>(note: &mut Notecard<IOM>, delay: &mut D) -> (r: Result<
    (),
    NoteError,
>)
    requires
        old(note).wf(),
    ensures
        final(note).wf(),
        same_config(final(note)@, old(note)@),
        ({
            let c = (
        "{\"req\":\"card.time\"}").spec_bytes();
            &&& (r is Ok ==> final(note)@.state == NoteState::Poll(0)
                && final(note)@.buf =~= c + seq![10u8])
            &&& (old(note)@.state is Request && c.len() + 1 <= old(note)@.cap ==> (r is Ok
                || (r is Err && r->Err_0 is I2cWriteError)))
        }),
{
    let mut body: Vec<u8> = Vec::new();
    json::push_lit(&mut body, "{\"req\":\"card.time\"}");
    note.request(delay, body.as_slice())
}

/// Retrieve general information about the device's operating status.
pub fn status<IOM: I2cBus, D: DelayMs>(note: &mut Notecard<IOM>, delay: &mut D) -> (r: Result<
    (),
    NoteError,
>)
    requires
        old(note).wf(),
    ensures
        final(note).wf(),
        same_config(final(note)@, old(note)@),
        ({
            let c = (
        "{\"req\":\"card.status\"}").spec_bytes();
            &&& (r is Ok ==> final(note)@.state == NoteState::Poll(0)
                && final(note)@.buf =~= c + seq![10u8])
            &&& (old(note)@.state is Request && c.len() + 1 <= old(note)@.cap ==> (r is Ok
                || (r is Err && r->Err_0 is I2cWriteError)))
        }),
{
    let mut body: Vec<u8> = Vec::new();
    json::push_lit(&mut body, "{\"req\":\"card.status\"}");
    note.request(delay, body.as_slice())
}

/// Perform a firmware restart of the device.
pub fn restart<IOM: I2cBus, D: DelayMs>(note: &mut Notecard<IOM>, delay: &mut D) -> (r: Result<
    (),
    NoteError,
>)
    requires
        old(note).wf(),
    ensures
        final(note).wf(),
        same_config(final(note)@, old(note)@),
        ({
            let c = (
        "{\"req\":\"card.restart\"}").spec_bytes();
            &&& (r is Ok ==> final(note)@.state == NoteState::Poll(0)
                && final(note)@.buf =~= c + seq![10u8])
            &&& (old(note)@.state is Request && c.len() + 1 <= old(note)@.cap ==> (r is Ok
                || (r is Err && r->Err_0 is I2cWriteError)))
        }),
{
    let mut body: Vec<u8> = Vec::new();
    json::push_lit(&mut body, "{\"req\":\"card.restart\"}");
    note.request(delay, body.as_slice())
}

/// Retrieve the device's current location.
pub fn location<IOM: I2cBus, D: DelayMs>(note: &mut Notecard<IOM>, delay: &mut D) -> (r: Result<
    (),
    NoteError,
>)
    requires
        old(note).wf(),
    ensures
        final(note).wf(),
        same_config(final(note)@, old(note)@),
        ({
            let c = (
        "{\"req\":\"card.location\"}").spec_bytes();
            &&& (r is Ok ==> final(note)@.state == NoteState::Poll(0)
                && final(note)@.buf =~= c + seq![10u8])
            &&& (old(note)@.state is Request && c.len() + 1 <= old(note)@.cap ==> (r is Ok
                || (r is Err && r->Err_0 is I2cWriteError)))
        }),
{
    let mut body: Vec<u8> = Vec::new();
    json::push_lit(&mut body, "{\"req\":\"card.location\"}");
    note.request(delay, body.as_slice())
}

/// Retrieve firmware version information.
pub fn version<IOM: I2cBus, D: DelayMs>(note: &mut Notecard<IOM>, delay: &mut D) -> (r: Result<
    (),
    NoteError,
>)
    requires
        old(note).wf(),
    ensures
        final(note).wf(),
        same_config(final(note)@, old(note)@),
        ({
            let c = (
        "{\"req\":\"card.version\"}").spec_bytes();
            &&& (r is Ok ==> final(note)@.state == NoteState::Poll(0)
                && final(note)@.buf =~= c + seq![10u8])
            &&& (old(note)@.state is Request && c.len() + 1 <= old(note)@.cap ==> (r is Ok
                || (r is Err && r->Err_0 is I2cWriteError)))
        }),
{
    let mut body: Vec<u8> = Vec::new();
    json::push_lit(&mut body, "{\"req\":\"card.version\"}");
    note.request(delay, body.as_slice())
}

/// Store location data in a file at the periodic interval, or using the
/// given heartbeat.
pub fn location_track<IOM: I2cBus, D: DelayMs>(
    note: &mut Notecard<IOM>,
    delay: &mut D,
    start: bool,
    heartbeat: bool,
    sync: bool,
    hours: Option<i32>,
    file: Option<&str>,
) -> (r: Result<(), NoteError>)
    requires
        old(note).wf(),
    ensures
        final(note).wf(),
        same_config(final(note)@, old(note)@),
        ({
            let c = (
        req::LocationTrack {
            req: "card.location.track",
            start: if start {
                Some(true)
            } else {
                None
            },
            heartbeat: if heartbeat {
                Some(true)
            } else {
                None
            },
            sync: if sync {
                Some(true)
            } else {
                None
            },
            stop: if !start {
                Some(true)
            } else {
                None
            },
            hours: hours,
            file: file,
        }).json();
            &&& (r is Ok ==> final(note)@.state == NoteState::Poll(0)
                && final(note)@.buf =~= c + seq![10u8])
            &&& (old(note)@.state is Request && c.len() + 1 <= old(note)@.cap ==> (r is Ok
                || (r is Err && r->Err_0 is I2cWriteError)))
        }),
{
    let cmd = req::LocationTrack {
        req: "card.location.track",
        start: if start { Some(true) } else { None },
        heartbeat: if heartbeat { Some(true) } else { None },
        sync: if sync { Some(true) } else { None },
        stop: if !start { Some(true) } else { None },
        hours,
        file,
    };
    let body = cmd.to_json();
    note.request(delay, body.as_slice())
}

/// Query or set the wireless configuration.
pub fn wireless<IOM: I2cBus, D: DelayMs>(
    note: &mut Notecard<IOM>,
    delay: &mut D,
    mode: Option<&str>,
    apn: Option<&str>,
    method: Option<&str>,
    hours: Option<u32>,
) -> (r: Result<(), NoteError>)
    requires
        old(note).wf(),
    ensures
        final(note).wf(),
        same_config(final(note)@, old(note)@),
        ({
            let c = (
        req::Wireless { req: "card.wireless", mode: mode, apn: apn, method: method, hours: hours }).json()
           ;
            &&& (r is Ok ==> final(note)@.state == NoteState::Poll(0)
                && final(note)@.buf =~= c + seq![10u8])
            &&& (old(note)@.state is Request && c.len() + 1 <= old(note)@.cap ==> (r is Ok
                || (r is Err && r->Err_0 is I2cWriteError)))
        }),
{
    let cmd = req::Wireless { req: "card.wireless", mode, apn, method, hours };
    let body = cmd.to_json();
    note.request(delay, body.as_slice())
}

/// Configure the device's outboard firmware update feature.
pub fn dfu<IOM: I2cBus, D: DelayMs>(
    note: &mut Notecard<IOM>,
    delay: &mut D,
    name: Option<req::DFUName>,
    on: Option<bool>,
    stop: Option<bool>,
) -> (r: Result<(), NoteError>)
    requires
        old(note).wf(),
    ensures
        final(note).wf(),
        same_config(final(note)@, old(note)@),
        ({
            let c = req::DFU::spec_new(
            name,
            on,
            stop,
        ).json();
            &&& (r is Ok ==> final(note)@.state == NoteState::Poll(0)
                && final(note)@.buf =~= c + seq![10u8])
            &&& (old(note)@.state is Request && c.len() + 1 <= old(note)@.cap ==> (r is Ok
                || (r is Err && r->Err_0 is I2cWriteError)))
        }),
{
    let cmd = req::DFU::new(name, on, stop);
    let body = cmd.to_json();
    note.request(delay, body.as_slice())
}

/// Select the transport method the device uses.
pub fn transport<IOM: I2cBus, D: DelayMs>(
    note: &mut Notecard<IOM>,
    delay: &mut D,
    method: Transport,
    allow: Option<bool>,
    umin: Option<bool>,
) -> (r: Result<(), NoteError>)
    requires
        old(note).wf(),
    ensures
        final(note).wf(),
        same_config(final(note)@, old(note)@),
        ({
            let c = (
        "{\"req\":").spec_bytes() + crate::json::json_str_bytes(("card.transport").spec_bytes()) + (
        ",\"method\":").spec_bytes() + crate::json::json_str_bytes(method.name_bytes())
            + crate::json::opt_bool_field(",\"allow\":", allow) + crate::json::opt_bool_field(
            ",\"umin\":",
            umin,
        ) + ("}").spec_bytes();
            &&& (r is Ok ==> final(note)@.state == NoteState::Poll(0)
                && final(note)@.buf =~= c + seq![10u8])
            &&& (old(note)@.state is Request && c.len() + 1 <= old(note)@.cap ==> (r is Ok
                || (r is Err && r->Err_0 is I2cWriteError)))
        }),
{
    let cmd = req::Transport { req: "card.transport", method: method.str(), allow, umin };
    let body = cmd.to_json();
    note.request(delay, body.as_slice())
}

} // verus!
