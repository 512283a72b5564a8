//! Driver engine for a serial-over-I2C request/response protocol.
//!
//! The device speaks JSON over a chunked I2C framing: a request is a single
//! newline-terminated JSON object, split into small length-prefixed chunk
//! writes; a response is polled for with availability queries and reassembled
//! from chunked reads. This crate holds the transport state machine, the
//! wire framing, the buffer management and the response classification, all
//! with machine-checked contracts. The bus itself and the delay source are
//! supplied by the embedding firmware through the traits in [`hal`].
use vstd::prelude::*;

pub mod card;
pub mod chunk;
pub mod dfu;
pub mod hal;
pub mod hub;
pub mod json;
pub mod note;
pub mod ntn;
pub mod resp;
pub mod text;
pub mod web;

use crate::hal::{DelayMs, I2cBus};

verus! {

/// Delay between polling for a new response (ms).
pub const RESPONSE_DELAY: u16 = 25;

/// Default capacity of the shared request and receive buffer. Requests and
/// responses may not serialize to any greater size than the configured
/// capacity.
pub const DEFAULT_BUF_SIZE: usize = 18 * 1024;

/// Construction-time configuration of the transport.
#[derive(Debug, Clone, Copy, PartialEq, Eq, Structural)]
pub struct NotecardConfig {
    /// I2C address of the device.
    pub i2c_addr: u8,

    /// Timeout while waiting for a response (ms).
    pub response_timeout: u16,

    /// Delay between chunks when transmitting (ms).
    pub chunk_delay: u16,

    /// Delay between segments when transmitting (ms). Empirically required
    /// settle time; can be reduced to near-zero on newer device firmware.
    pub segment_delay: u16,
}

impl NotecardConfig {
    /// The device's well-known address and empirically safe timings.
    pub open spec fn spec_default() -> NotecardConfig {
        NotecardConfig { i2c_addr: 0x17, response_timeout: 5000, chunk_delay: 20, segment_delay: 250 }
    }
}

impl Default for NotecardConfig {
    /// The device's well-known address and empirically safe timings.
    fn default() -> (r: NotecardConfig)
        ensures
            r == NotecardConfig::spec_default(),
    {
        NotecardConfig { i2c_addr: 0x17, response_timeout: 5000, chunk_delay: 20, segment_delay: 250 }
    }
}

/// Protocol state of the transport.
#[derive(Debug, Clone, Copy, PartialEq, Eq, Structural)]
pub enum NoteState {
    /// Perform handshake with the device.
    Handshake,
    /// Ready to make a request.
    Request,
    /// Waiting for a response to become ready; the value is tries made.
    Poll(usize),
    /// Reading a response; the value is remaining bytes.
    Response(usize),
    /// The full response has been read into the buffer.
    ResponseReady,
}

/// Everything that can go wrong while driving the device.
#[derive(Debug, Clone)]
pub enum NoteError {
    /// A bus write transaction failed.
    I2cWriteError,

    /// A bus read transaction failed.
    I2cReadError,

    /// A response could not be deserialized; carries the offending payload
    /// as text for diagnostics.
    DeserError(String),

    /// A request could not be serialized into the buffer.
    SerError,

    /// Request does not end with '\n'.
    InvalidRequest,

    /// An availability query reported bytes sent although none were
    /// requested: a protocol violation.
    RemainingData,

    /// The response timeout elapsed before the device produced a response.
    TimeOut,

    /// Data exceeds the buffer capacity.
    BufOverflow,

    /// Method called while the driver is in a state that does not allow it.
    WrongState,

    /// Device firmware is being updated.
    DFUInProgress,

    /// The device reported an application-level error; carries its message.
    NotecardErr(String),
}

/// The parts of a transport's value that no operation after construction
/// ever changes: address, capacity and timing configuration.
pub open spec fn same_config(a: NoteView, b: NoteView) -> bool {
    &&& a.addr == b.addr
    &&& a.cap == b.cap
    &&& a.response_timeout == b.response_timeout
    &&& a.chunk_delay == b.chunk_delay
    &&& a.segment_delay == b.segment_delay
}

/// The abstract value of a transport: everything but the bus handle.
#[verifier::ext_equal]
pub struct NoteView {
    pub addr: u8,
    pub state: NoteState,
    pub buf: Seq<u8>,
    pub cap: nat,
    pub response_timeout: u16,
    pub chunk_delay: u16,
    pub segment_delay: u16,
}

impl NoteView {
    /// The buffer never outgrows the capacity fixed at construction.
    pub open spec fn wf(self) -> bool {
        self.buf.len() <= self.cap
    }
}

/// The driver for the device. Must be initialized before making any
/// requests.
pub struct Notecard<IOM: I2cBus> {
    i2c: IOM,
    addr: u8,
    state: NoteState,

    /// The shared request and receive buffer; `cap` bounds its length.
    buf: Vec<u8>,
    cap: usize,

    response_timeout: u16,
    chunk_delay: u16,
    segment_delay: u16,

    /// The driver's ghost record of its own externally visible activity:
    /// every completed bus transaction and every settle delay, in order.
    /// Maintained alongside each call; contracts state what it grows by.
    trace: Ghost<Seq<crate::hal::TraceEvent>>,
}

/// Driver state detached from the bus handle, as produced by
/// [`Notecard::suspend`] and consumed by [`Notecard::resume`].
pub struct SuspendState {
    addr: u8,
    state: NoteState,
    buf: Vec<u8>,
    cap: usize,
    response_timeout: u16,
    chunk_delay: u16,
    segment_delay: u16,
    trace: Ghost<Seq<crate::hal::TraceEvent>>,
}

impl<IOM: I2cBus> View for Notecard<IOM> {
    type V = NoteView;

    closed spec fn view(&self) -> NoteView {
        NoteView {
            addr: self.addr,
            state: self.state,
            buf: self.buf@,
            cap: self.cap as nat,
            response_timeout: self.response_timeout,
            chunk_delay: self.chunk_delay,
            segment_delay: self.segment_delay,
        }
    }
}

impl View for SuspendState {
    type V = NoteView;

    closed spec fn view(&self) -> NoteView {
        NoteView {
            addr: self.addr,
            state: self.state,
            buf: self.buf@,
            cap: self.cap as nat,
            response_timeout: self.response_timeout,
            chunk_delay: self.chunk_delay,
            segment_delay: self.segment_delay,
        }
    }
}

impl SuspendState {
    /// The buffer never outgrows the capacity fixed at construction.
    pub open spec fn wf(&self) -> bool {
        self@.wf()
    }

    /// The activity record carried through the suspension.
    pub closed spec fn wire_trace(&self) -> Seq<crate::hal::TraceEvent> {
        self.trace@
    }
}

/// The delay events of an activity record, in order.
pub open spec fn delay_events(s: Seq<crate::hal::TraceEvent>) -> Seq<crate::hal::TraceEvent> {
    s.filter(|e: crate::hal::TraceEvent| e is Delay)
}

/// `n` delays of one poll interval each.
pub open spec fn uniform_delays(n: nat) -> Seq<crate::hal::TraceEvent> {
    Seq::new(n, |i: int| (crate::hal::TraceEvent::Delay { ms: RESPONSE_DELAY }))
}

/// Extending without delays twice in a row extends without delays.
proof fn lemma_trace_extends_trans(
    a: Seq<crate::hal::TraceEvent>,
    b: Seq<crate::hal::TraceEvent>,
    c: Seq<crate::hal::TraceEvent>,
)
    requires
        trace_extends_without_delays(a, b),
        trace_extends_without_delays(b, c),
    ensures
        trace_extends_without_delays(a, c),
{
    assert(a =~= c.subrange(0, a.len() as int));
    assert forall|i: int| a.len() <= i < c.len() implies !(#[trigger] c[i] is Delay) by {
        if i < b.len() {
            assert(c[i] == b[i]);
        }
    }
}

/// Every activity record extends itself, by nothing.
proof fn lemma_trace_extends_refl(a: Seq<crate::hal::TraceEvent>)
    ensures
        trace_extends_without_delays(a, a),
{
    assert(a =~= a.subrange(0, a.len() as int));
}

/// An activity record without delay events contributes nothing to the
/// delay filter.
proof fn lemma_no_delay_events(s: Seq<crate::hal::TraceEvent>)
    requires
        forall|i: int| 0 <= i < s.len() ==> !(#[trigger] s[i] is Delay),
    ensures
        delay_events(s) =~= Seq::<crate::hal::TraceEvent>::empty(),
    decreases s.len(),
{
    reveal(Seq::filter);
    if s.len() > 0 {
        lemma_no_delay_events(s.drop_last());
    }
}

/// One blocking-wait iteration first polls, adding only bus transactions
/// to the activity record, then performs exactly one poll-interval delay:
/// the suffix since `base` gains exactly one delay event.
proof fn lemma_delay_events_step(
    base: Seq<crate::hal::TraceEvent>,
    pre: Seq<crate::hal::TraceEvent>,
    post: Seq<crate::hal::TraceEvent>,
    k: nat,
)
    requires
        base.is_prefix_of(pre),
        delay_events(pre.skip(base.len() as int)) =~= uniform_delays(k),
        post.len() > 0,
        post.last() == (crate::hal::TraceEvent::Delay { ms: RESPONSE_DELAY }),
        trace_extends_without_delays(pre, post.drop_last()),
    ensures
        base.is_prefix_of(post),
        delay_events(post.skip(base.len() as int)) =~= uniform_delays((k + 1) as nat),
{
    broadcast use vstd::seq_lib::group_seq_properties;

    let mid = post.drop_last();
    let delta = mid.skip(pre.len() as int);
    let s_pre = pre.skip(base.len() as int);
    let s_mid = mid.skip(base.len() as int);
    let s_post = post.skip(base.len() as int);
    assert(base.is_prefix_of(mid));
    assert(s_mid =~= s_pre + delta);
    assert(forall|i: int| 0 <= i < delta.len() ==> !(#[trigger] delta[i] is Delay)) by {
        assert(forall|i: int|
            0 <= i < delta.len() ==> delta[i] == mid[pre.len() + i] && !(#[trigger] delta[i]
                is Delay));
    }
    lemma_no_delay_events(delta);
    reveal(Seq::filter);
    Seq::filter_distributes_over_add(s_pre, delta, |e: crate::hal::TraceEvent| e is Delay);
    assert(delay_events(s_mid) =~= uniform_delays(k));
    assert(s_post =~= s_mid.push(post.last()));
    assert(s_post.drop_last() =~= s_mid);
    assert(delay_events(s_post) =~= delay_events(s_mid).push(post.last()));
    assert(uniform_delays((k + 1) as nat) =~= uniform_delays(k).push(
        crate::hal::TraceEvent::Delay { ms: RESPONSE_DELAY },
    ));
}

/// The driver performed some activity but no delays: the old activity
/// record is a prefix of the new one, and everything added is a bus
/// transaction.
pub open spec fn trace_extends_without_delays(
    t0: Seq<crate::hal::TraceEvent>,
    t1: Seq<crate::hal::TraceEvent>,
) -> bool {
    &&& t0.is_prefix_of(t1)
    &&& forall|i: int| t0.len() <= i < t1.len() ==> !(#[trigger] t1[i] is Delay)
}

impl<IOM: I2cBus> Notecard<IOM> {
    /// The bus handle owned by the transport, as an abstract value.
    pub closed spec fn bus(&self) -> IOM {
        self.i2c
    }

    /// The driver's activity record: every completed bus transaction and
    /// every settle delay it performed, oldest first.
    pub closed spec fn wire_trace(&self) -> Seq<crate::hal::TraceEvent> {
        self.trace@
    }

    /// The buffer never outgrows the configured capacity.
    pub open spec fn wf(&self) -> bool {
        self@.wf()
    }

    /// The view a freshly constructed transport has under configuration `c`.
    pub open spec fn initial_view(c: NotecardConfig, cap: nat) -> NoteView {
        NoteView {
            addr: c.i2c_addr,
            state: NoteState::Handshake,
            buf: Seq::empty(),
            cap: cap,
            response_timeout: c.response_timeout,
            chunk_delay: c.chunk_delay,
            segment_delay: c.segment_delay,
        }
    }

    /// A new transport with the default configuration and buffer capacity.
    pub fn new(i2c: IOM) -> (r: Notecard<IOM>)
        ensures
            r@ =~= Self::initial_view(NotecardConfig::spec_default(), DEFAULT_BUF_SIZE as nat),
            r.bus() == i2c,
            r.wf(),
            r.wire_trace() =~= Seq::<crate::hal::TraceEvent>::empty(),
    {
        Self::new_with_config(i2c, NotecardConfig::default())
    }

    /// A new transport with the given configuration and the default buffer
    /// capacity.
    pub fn new_with_config(i2c: IOM, c: NotecardConfig) -> (r: Notecard<IOM>)
        ensures
            r@ =~= Self::initial_view(c, DEFAULT_BUF_SIZE as nat),
            r.bus() == i2c,
            r.wf(),
            r.wire_trace() =~= Seq::<crate::hal::TraceEvent>::empty(),
    {
        Notecard {
            i2c,
            addr: c.i2c_addr,
            state: NoteState::Handshake,
            buf: Vec::new(),
            cap: DEFAULT_BUF_SIZE,
            response_timeout: c.response_timeout,
            chunk_delay: c.chunk_delay,
            segment_delay: c.segment_delay,
            trace: Ghost(Seq::empty()),
        }
    }

    /// The configured buffer capacity.
    pub fn buf_capacity(&self) -> (r: usize)
        ensures
            r as nat == self@.cap,
    {
        self.cap
    }

    /// The configured response timeout (ms).
    pub fn response_timeout(&self) -> (r: u16)
        ensures
            r == self@.response_timeout,
    {
        self.response_timeout
    }

    /// The current protocol state.
    pub fn current_state(&self) -> (r: NoteState)
        ensures
            r == self@.state,
    {
        self.state
    }

    /// Change the buffer capacity bound. Fails without mutating anything if
    /// the buffered content exceeds the new capacity.
    pub fn resize_buf(&mut self, new_cap: usize) -> (r: Result<(), NoteError>)
        requires
            old(self).wf(),
        ensures
            final(self).wf(),
            final(self).bus() == old(self).bus(),
            r is Ok <==> old(self)@.buf.len() <= new_cap as nat,
            r is Ok ==> final(self)@ =~= (NoteView { cap: new_cap as nat, ..old(self)@ }),
            r is Err ==> r == Err::<(), NoteError>(NoteError::BufOverflow) && final(self)@ =~= old(self)@,
    {
        if new_cap < self.buf.len() {
            Err(NoteError::BufOverflow)
        } else {
            self.cap = new_cap;
            Ok(())
        }
    }

    /// Detach and return the bus handle together with a snapshot of the
    /// driver state, so the bus can be used for other peripherals. The
    /// device must not be driven by anything else in the meantime.
    pub fn suspend(self) -> (r: (IOM, SuspendState))
        requires
            self.wf(),
        ensures
            r.0 == self.bus(),
            r.1@ =~= self@,
            r.1.wf(),
            r.1.wire_trace() == self.wire_trace(),
    {
        let Notecard {
            i2c,
            addr,
            state,
            buf,
            cap,
            response_timeout,
            chunk_delay,
            segment_delay,
            trace,
        } = self;
        (
            i2c,
            SuspendState {
                addr,
                state,
                buf,
                cap,
                response_timeout,
                chunk_delay,
                segment_delay,
                trace,
            },
        )
    }

    /// Reattach a bus handle to a previously [`Notecard::suspend`]ed driver
    /// state, reconstructing exactly the prior transport. No reset is
    /// performed: the device is assumed untouched since the suspension.
    pub fn resume(i2c: IOM, state: SuspendState) -> (r: Notecard<IOM>)
        requires
            state.wf(),
        ensures
            r.bus() == i2c,
            r@ =~= state@,
            r.wf(),
            r.wire_trace() == state.wire_trace(),
    {
        let SuspendState {
            addr,
            state,
            buf,
            cap,
            response_timeout,
            chunk_delay,
            segment_delay,
            trace,
        } = state;
        Notecard {
            i2c,
            addr,
            state,
            buf,
            cap,
            response_timeout,
            chunk_delay,
            segment_delay,
            trace,
        }
    }

    /// Take the completed response out of the buffer, returning the driver
    /// to the dispatch-ready state. Valid exactly in `ResponseReady`; any
    /// other state is a wrong-state error and nothing changes.
    pub fn take_response(&mut self) -> (r: Result<Vec<u8>, NoteError>)
        requires
            old(self).wf(),
        ensures
            final(self).wf(),
            final(self).bus() == old(self).bus(),
            final(self).wire_trace() == old(self).wire_trace(),
            r is Ok <==> old(self)@.state is ResponseReady,
            r is Ok ==> r->Ok_0@ == old(self)@.buf && final(self)@ =~= (NoteView {
                state: NoteState::Request,
                ..old(self)@
            }),
            r is Err ==> r == Err::<Vec<u8>, NoteError>(NoteError::WrongState) && final(self)@
                =~= old(self)@,
    {
        if matches!(self.state, NoteState::ResponseReady) {
            self.state = NoteState::Request;
            Ok(self.buf.clone())
        } else {
            Err(NoteError::WrongState)
        }
    }
    /// Check whether the device is connected and responding, by addressing
    /// it with an empty write. Allowed in every state; changes nothing.
    pub fn ping(&mut self) -> (r: bool)
        requires
            old(self).wf(),
        ensures
            final(self).wf(),
            final(self)@ =~= old(self)@,
            // A successful ping is exactly one zero-length write to the
            // device's address; a failed one completes no transaction.
            r ==> final(self).wire_trace() == old(self).wire_trace().push(
                crate::hal::TraceEvent::Write { addr: old(self)@.addr, data: Seq::empty() },
            ),
            !r ==> final(self).wire_trace() == old(self).wire_trace(),
    {
        let empty: Vec<u8> = Vec::new();
        proof {
            assert(empty@ =~= Seq::<u8>::empty());
        }
        let ok = self.i2c.bus_write(self.addr, empty.as_slice()).is_ok();
        if ok {
            self.trace = Ghost(
                self.trace@.push(
                    crate::hal::TraceEvent::Write { addr: self.addr, data: empty@ },
                ),
            );
        }
        ok
    }

    /// Apply the two header bytes `(available, sent)` of an availability
    /// query that requested no payload. If the device reports available
    /// response bytes, the buffer is cleared and reading begins; if it
    /// reports bytes sent although none were requested, that is a protocol
    /// violation and surfaces as an error rather than being absorbed.
    pub fn apply_availability(&mut self, available: u8, sent: u8) -> (r: Result<usize, NoteError>)
        requires
            old(self).wf(),
            !(old(self)@.state is Response),
        ensures
            final(self).wf(),
            final(self).bus() == old(self).bus(),
            final(self).wire_trace() == old(self).wire_trace(),
            same_config(final(self)@, old(self)@),
            available > 0 ==> final(self)@.state == NoteState::Response(available as usize)
                && final(self)@.buf =~= Seq::<u8>::empty(),
            available == 0 ==> final(self)@ =~= old(self)@,
            r is Err <==> sent > 0,
            sent > 0 ==> r == Err::<usize, NoteError>(NoteError::RemainingData),
            sent == 0 ==> r == Ok::<usize, NoteError>(available as usize),
    {
        if available > 0 {
            self.buf.clear();
            self.state = NoteState::Response(available as usize);
        }
        if sent > 0 {
            Err(NoteError::RemainingData)
        } else {
            Ok(available as usize)
        }
    }

    /// Query the device for available response bytes. Outside of response
    /// reading this issues the control write `[0, 0]` followed by a 2-byte
    /// read; a positive count moves the transport into response reading
    /// with a cleared buffer.
    pub fn data_query(&mut self) -> (r: Result<usize, NoteError>)
        requires
            old(self).wf(),
        ensures
            final(self).wf(),
            same_config(final(self)@, old(self)@),
            old(self)@.state is Response ==> r is Err && r->Err_0 is WrongState && final(self)@
                =~= old(self)@ && final(self).bus() == old(self).bus(),
            !(old(self)@.state is Response) ==> {
                &&& r is Ok ==> r->Ok_0 <= 255
                &&& r is Ok && r->Ok_0 > 0 ==> final(self)@.state == NoteState::Response(
                    r->Ok_0 as usize,
                ) && final(self)@.buf =~= Seq::<u8>::empty()
                &&& r is Ok && r->Ok_0 == 0 ==> final(self)@ =~= old(self)@
                &&& r is Err ==> (r->Err_0 is I2cWriteError || r->Err_0 is I2cReadError
                    || r->Err_0 is RemainingData)
                &&& r is Err && (r->Err_0 is I2cWriteError || r->Err_0 is I2cReadError)
                    ==> final(self)@ =~= old(self)@
                &&& r is Err && r->Err_0 is RemainingData ==> (final(self)@ =~= old(self)@ || (
                final(self)@.state is Response && final(self)@.buf.len() == 0))
                // The wire shape of the availability query: the control
                // write `[0, 0]` followed by one 2-byte header read, and
                // nothing else. A successful query returns the header's
                // first byte; the protocol violation is a nonzero second
                // byte.
                &&& (r is Ok || (r is Err && r->Err_0 is RemainingData)) ==> exists|hdr: Seq<u8>|
                    #![auto]
                    {
                        &&& hdr.len() == 2
                        &&& final(self).wire_trace() == old(self).wire_trace() + seq![
                            crate::hal::TraceEvent::Write {
                                addr: old(self)@.addr,
                                data: seq![0u8, 0u8],
                            },
                            crate::hal::TraceEvent::Read { addr: old(self)@.addr, data: hdr },
                        ]
                        &&& (r is Ok ==> hdr[1] == 0 && r->Ok_0 == hdr[0] as usize)
                        &&& (r is Err ==> hdr[1] > 0)
                    }
                &&& r is Err && r->Err_0 is I2cWriteError ==> final(self).wire_trace() == old(
                    self,
                ).wire_trace()
            },
            trace_extends_without_delays(old(self).wire_trace(), final(self).wire_trace()),
    {
        if !matches!(self.state, NoteState::Response(_)) {
            // Ask for reading, but with zero bytes allocated.
            let mut cmd: Vec<u8> = Vec::new();
            cmd.push(0);
            cmd.push(0);
            proof {
                assert(cmd@ =~= seq![0u8, 0u8]);
            }
            if self.i2c.bus_write(self.addr, cmd.as_slice()).is_err() {
                return Err(NoteError::I2cWriteError);
            }
            self.trace = Ghost(
                self.trace@.push(crate::hal::TraceEvent::Write { addr: self.addr, data: cmd@ }),
            );
            let hdr = match self.i2c.bus_read(self.addr, 2) {
                Ok(h) => h,
                Err(_) => {
                    return Err(NoteError::I2cReadError);
                },
            };
            self.trace = Ghost(
                self.trace@.push(crate::hal::TraceEvent::Read { addr: self.addr, data: hdr@ }),
            );
            proof {
                assert(self.wire_trace() =~= old(self).wire_trace() + seq![
                    crate::hal::TraceEvent::Write { addr: old(self)@.addr, data: seq![
                        0u8,
                        0u8,
                    ] },
                    crate::hal::TraceEvent::Read { addr: old(self)@.addr, data: hdr@ },
                ]);
            }
            let available = hdr[0];
            let sent = hdr[1];
            self.apply_availability(available, sent)
        } else {
            Err(NoteError::WrongState)
        }
    }

    /// Append one received read chunk to the response buffer. `chunk` is
    /// the raw bytes of one availability read: the header `(available,
    /// sent)` followed by payload. The payload is appended to the buffer in
    /// order — never dropped, never duplicated — and the reported remaining
    /// count decides whether reading continues or the response is complete.
    pub fn ingest_read_chunk(&mut self, chunk: &[u8]) -> (r: Result<usize, NoteError>)
        requires
            old(self).wf(),
            old(self)@.state is Response,
            chunk@.len() >= 2,
        ensures
            final(self).wf(),
            final(self).bus() == old(self).bus(),
            final(self).wire_trace() == old(self).wire_trace(),
            same_config(final(self)@, old(self)@),
            ({
                let available = chunk@[0];
                let payload = chunk@.skip(2);
                if old(self)@.buf.len() + payload.len() <= old(self)@.cap {
                    &&& r == Ok::<usize, NoteError>(available as usize)
                    &&& final(self)@.buf =~= old(self)@.buf + payload
                    &&& final(self)@.state == (if available > 0 {
                        NoteState::Response(available as usize)
                    } else {
                        NoteState::ResponseReady
                    })
                } else {
                    &&& r == Err::<usize, NoteError>(NoteError::BufOverflow)
                    &&& final(self)@ =~= old(self)@
                }
            }),
    {
        let available = chunk[0];
        let payload_len = chunk.len() - 2;
        if payload_len > self.cap - self.buf.len() {
            return Err(NoteError::BufOverflow);
        }
        let (_, payload) = chunk.split_at(2);
        self.buf.extend_from_slice(payload);
        if available > 0 {
            self.state = NoteState::Response(available as usize);
        } else {
            self.state = NoteState::ResponseReady;
        }
        Ok(available as usize)
    }

    /// Perform one chunked read of the pending response: request up to the
    /// per-transfer ceiling, append what arrives to the buffer, and track
    /// how much the device says remains.
    fn read(&mut self) -> (r: Result<usize, NoteError>)
        requires
            old(self).wf(),
        ensures
            final(self).wf(),
            same_config(final(self)@, old(self)@),
            !(old(self)@.state is Response) ==> r is Err && r->Err_0 is WrongState && final(self)@
                =~= old(self)@ && final(self).bus() == old(self).bus(),
            old(self)@.state is Response ==> {
                &&& r is Ok ==> r->Ok_0 <= 255 && old(self)@.buf.is_prefix_of(final(self)@.buf)
                &&& r is Ok && r->Ok_0 > 0 ==> final(self)@.state == NoteState::Response(
                    r->Ok_0 as usize,
                )
                &&& r is Ok && r->Ok_0 == 0 ==> final(self)@.state is ResponseReady
                &&& r is Err ==> (r->Err_0 is I2cWriteError || r->Err_0 is I2cReadError
                    || r->Err_0 is BufOverflow)
                &&& r is Err ==> final(self)@ =~= old(self)@
                // The wire shape of one response read: ask for
                // `min(126, remaining)` bytes with the control write
                // `[0, sz]`, read `sz + 2` bytes back, and append exactly
                // the payload past the 2-byte header to the buffer.
                &&& (r is Ok || (r is Err && r->Err_0 is BufOverflow)) ==> ({
                    let avail = old(self)@.state->Response_0;
                    let sz: int = if avail < 126 {
                        avail as int
                    } else {
                        126
                    };
                    exists|chunk: Seq<u8>|
                        #![auto]
                        {
                            &&& chunk.len() == sz + 2
                            &&& final(self).wire_trace() == old(self).wire_trace() + seq![
                                crate::hal::TraceEvent::Write {
                                    addr: old(self)@.addr,
                                    data: seq![0u8, sz as u8],
                                },
                                crate::hal::TraceEvent::Read {
                                    addr: old(self)@.addr,
                                    data: chunk,
                                },
                            ]
                            &&& (r is Ok ==> final(self)@.buf == old(self)@.buf + chunk.skip(2)
                                && r->Ok_0 == chunk[0] as usize)
                        }
                })
                &&& r is Err && r->Err_0 is I2cWriteError ==> final(self).wire_trace() == old(
                    self,
                ).wire_trace()
            },
            trace_extends_without_delays(old(self).wire_trace(), final(self).wire_trace()),
    {
        if let NoteState::Response(avail) = self.state {
            // Chunk to read, bounded by the transfer ceiling less the
            // 2-byte header.
            let sz: usize = if avail < 126 {
                avail
            } else {
                126
            };
            let mut cmd: Vec<u8> = Vec::new();
            cmd.push(0);
            cmd.push(sz as u8);
            proof {
                assert(cmd@ =~= seq![0u8, sz as u8]);
            }
            if self.i2c.bus_write(self.addr, cmd.as_slice()).is_err() {
                return Err(NoteError::I2cWriteError);
            }
            self.trace = Ghost(
                self.trace@.push(crate::hal::TraceEvent::Write { addr: self.addr, data: cmd@ }),
            );
            let chunk = match self.i2c.bus_read(self.addr, sz + 2) {
                Ok(c) => c,
                Err(_) => {
                    return Err(NoteError::I2cReadError);
                },
            };
            self.trace = Ghost(
                self.trace@.push(
                    crate::hal::TraceEvent::Read { addr: self.addr, data: chunk@ },
                ),
            );
            proof {
                assert(self.wire_trace() =~= old(self).wire_trace() + seq![
                    crate::hal::TraceEvent::Write { addr: old(self)@.addr, data: seq![
                        0u8,
                        sz as u8,
                    ] },
                    crate::hal::TraceEvent::Read { addr: old(self)@.addr, data: chunk@ },
                ]);
            }
            self.ingest_read_chunk(chunk.as_slice())
        } else {
            Err(NoteError::WrongState)
        }
    }

    /// Drive the exchange one step: check availability while polling, read
    /// while a response is arriving, and hand the completed response out.
    /// Returns `Ok(None)` without blocking when the device is not ready;
    /// the caller decides how to wait between attempts.
    pub fn poll(&mut self) -> (r: Result<Option<Vec<u8>>, NoteError>)
        requires
            old(self).wf(),
        ensures
            final(self).wf(),
            same_config(final(self)@, old(self)@),
            (old(self)@.state is Handshake || old(self)@.state is Request) ==> r is Err
                && r->Err_0 is WrongState && final(self)@ =~= old(self)@ && final(self).bus()
                == old(self).bus(),
            r is Ok && r->Ok_0 is Some ==> final(self)@.state == NoteState::Request
                && r->Ok_0->Some_0@ == final(self)@.buf,
            r is Ok && r->Ok_0 is None ==> (final(self)@.state is Poll || final(self)@.state
                is Response),
            // With the response already complete, no bus call is made and
            // success is owed: the completed buffer is handed out.
            old(self)@.state is ResponseReady ==> r is Ok && r->Ok_0 is Some
                && r->Ok_0->Some_0@ == old(self)@.buf && final(self)@ =~= (NoteView {
                state: NoteState::Request,
                ..old(self)@
            }) && final(self).bus() == old(self).bus() && final(self).wire_trace() == old(
                self,
            ).wire_trace(),
            r is Err && !(old(self)@.state is Handshake || old(self)@.state is Request) ==> !(
            r->Err_0 is WrongState),
            r is Err ==> (r->Err_0 is WrongState || r->Err_0 is I2cWriteError || r->Err_0
                is I2cReadError || r->Err_0 is RemainingData || r->Err_0 is BufOverflow),
            // One poll step never waits: anything it adds to the activity
            // record is a bus transaction.
            trace_extends_without_delays(old(self).wire_trace(), final(self).wire_trace()),
    {
        match self.state {
            NoteState::Poll(_) => {
                // 1. Check for available data.
                let sz = self.data_query()?;
                if sz == 0 {
                    // Not ready: the caller sleeps and polls again.
                    return Ok(None);
                }
            },
            NoteState::Response(_) => {},
            NoteState::ResponseReady => {},
            _ => {
                return Err(NoteError::WrongState);
            },
        }
        if matches!(self.state, NoteState::Response(_)) {
            let ghost mid = self.wire_trace();
            proof {
                // Either the availability query above already extended the
                // record, or nothing has happened yet.
                if mid == old(self).wire_trace() {
                    lemma_trace_extends_refl(mid);
                }
            }
            let step = self.read();
            proof {
                lemma_trace_extends_trans(old(self).wire_trace(), mid, self.wire_trace());
            }
            let avail = step?;
            if avail > 0 {
                // More data on the way: the caller waits between reads.
                return Ok(None);
            }
        }
        let body = self.take_response()?;
        Ok(Some(body))
    }

    /// Read and discard whatever response is pending or arriving, bounded
    /// by the response timeout. Leaves the buffer cleared either way so the
    /// next real exchange starts clean.
    fn consume_response<D: DelayMs>(&mut self, delay: &mut D) -> (r: Result<(), NoteError>)
        requires
            old(self).wf(),
            old(self)@.state is Poll || old(self)@.state is Response || old(self)@.state
                is ResponseReady,
        ensures
            final(self).wf(),
            same_config(final(self)@, old(self)@),
            r is Ok ==> final(self)@.state == NoteState::Request && final(self)@.buf.len() == 0,
            r is Err && r->Err_0 is TimeOut ==> final(self)@.buf.len() == 0,
            // A response that is already complete is discarded without
            // another bus transfer, so within any positive budget success
            // is owed.
            old(self)@.state is ResponseReady && old(self)@.response_timeout > 0 ==> r is Ok,
            r is Err ==> !(r->Err_0 is WrongState) && !(r->Err_0 is InvalidRequest),
    {
        let timeout: u32 = self.response_timeout as u32;
        if timeout == 0 {
            self.buf.clear();
            return Err(NoteError::TimeOut);
        }
        match self.poll()? {
            Some(_) => {
                self.buf.clear();
                return Ok(());
            },
            None => {},
        }
        delay.delay_ms(RESPONSE_DELAY);
        self.trace = Ghost(
            self.trace@.push(crate::hal::TraceEvent::Delay { ms: RESPONSE_DELAY }),
        );
        let mut waited: u32 = RESPONSE_DELAY as u32;
        while waited < timeout
            invariant
                self.wf(),
                same_config(self@, old(self)@),
                self@.state is Poll || self@.state is Response || self@.state is ResponseReady,
                !(old(self)@.state is ResponseReady),
                timeout <= 0xffff,
                waited <= 0xffff + 25,
            decreases timeout + 25 - waited,
        {
            match self.poll()? {
                Some(_) => {
                    self.buf.clear();
                    return Ok(());
                },
                None => {},
            }
            delay.delay_ms(RESPONSE_DELAY);
            self.trace = Ghost(
                self.trace@.push(crate::hal::TraceEvent::Delay { ms: RESPONSE_DELAY }),
            );
            waited = waited + RESPONSE_DELAY as u32;
        }
        self.buf.clear();
        Err(NoteError::TimeOut)
    }

    /// Drain any stale response left over from a prior session, then become
    /// ready for requests. A no-op when the handshake has already been
    /// performed.
    fn handshake<D: DelayMs>(&mut self, delay: &mut D) -> (r: Result<(), NoteError>)
        requires
            old(self).wf(),
        ensures
            final(self).wf(),
            same_config(final(self)@, old(self)@),
            !(old(self)@.state is Handshake) ==> r is Ok && final(self)@ =~= old(self)@
                && final(self).bus() == old(self).bus(),
            r is Ok && old(self)@.state is Handshake ==> final(self)@.state == NoteState::Request,
            // Starting from an empty buffer, the drain leaves it empty both
            // on success and when the drain times out.
            old(self)@.buf.len() == 0 ==> ((r is Ok ==> final(self)@.buf.len() == 0) && (r is Err
                && r->Err_0 is TimeOut ==> final(self)@.buf.len() == 0)),
            r is Err ==> !(r->Err_0 is WrongState) && !(r->Err_0 is InvalidRequest),
    {
        if matches!(self.state, NoteState::Handshake) {
            if self.data_query()? > 0 {
                // Stale data in the queue: consume and discard it.
                self.consume_response(delay)?;
            }
            self.state = NoteState::Request;
        }
        Ok(())
    }

    /// Reset the driver and protocol state: clear the buffer, force a new
    /// handshake and drain anything the device still wants to send. Any
    /// response still awaited is invalidated.
    pub fn reset<D: DelayMs>(&mut self, delay: &mut D) -> (r: Result<(), NoteError>)
        requires
            old(self).wf(),
        ensures
            final(self).wf(),
            same_config(final(self)@, old(self)@),
            r is Ok ==> final(self)@.state == NoteState::Request && final(self)@.buf.len() == 0,
            // Even when the drain times out, the buffer stays cleared so
            // the next exchange starts clean and a later reset can succeed.
            r is Err && r->Err_0 is TimeOut ==> final(self)@.buf.len() == 0,
            r is Err ==> !(r->Err_0 is WrongState) && !(r->Err_0 is InvalidRequest),
    {
        // Clear up front in case the availability query reports nothing.
        self.buf.clear();
        self.state = NoteState::Handshake;
        self.handshake(delay)
    }

    /// Transmit the buffered request over the bus in framed chunks, in
    /// order, with the configured settle delays after every chunk and every
    /// segment, then start polling for the response.
    fn send_request<D: DelayMs>(&mut self, delay: &mut D) -> (r: Result<(), NoteError>)
        requires
            old(self).wf(),
            old(self)@.state is Request,
            old(self)@.buf.len() >= 1,
            old(self)@.buf.last() == 10u8,
        ensures
            final(self).wf(),
            same_config(final(self)@, old(self)@),
            r is Ok ==> final(self)@ =~= (NoteView {
                state: NoteState::Poll(0),
                ..old(self)@
            }),
            r is Err ==> r->Err_0 is I2cWriteError && final(self)@ =~= old(self)@,
            // On success, the driver's activity was exactly the framed
            // chunks of the buffer, strictly in order, each followed by
            // the chunk settle delay and each segment by the segment
            // settle delay — and nothing else.
            r is Ok ==> final(self).wire_trace() =~= old(self).wire_trace()
                + crate::chunk::send_trace(
                old(self)@.addr,
                crate::chunk::chunk_payloads(old(self)@.buf, crate::chunk::CHUNK_LENGTH as nat),
                crate::chunk::chunk_payloads(
                    old(self)@.buf,
                    crate::chunk::CHUNK_LENGTH as nat,
                ).len(),
                old(self)@.chunk_delay,
                old(self)@.segment_delay,
            ),
    {
        let ghost cp = crate::chunk::chunk_payloads(self.buf@, crate::chunk::CHUNK_LENGTH as nat);
        let ghost cd = self@.chunk_delay;
        let ghost sd = self@.segment_delay;
        let frames = crate::chunk::build_frames(self.buf.as_slice());
        let mut i: usize = 0;
        proof {
            assert(self.wire_trace() + Seq::empty() =~= self.wire_trace());
        }
        while i < frames.len()
            invariant
                self.wf(),
                self@ =~= old(self)@,
                i <= frames@.len(),
                cd == old(self)@.chunk_delay && sd == old(self)@.segment_delay,
                cp == crate::chunk::chunk_payloads(
                    old(self)@.buf,
                    crate::chunk::CHUNK_LENGTH as nat,
                ),
                frames@.len() == cp.len(),
                forall|j: int|
                    0 <= j < frames@.len() ==> frames@[j]@ =~= crate::chunk::frame_of(cp[j]),
                self.wire_trace() =~= old(self).wire_trace() + crate::chunk::send_trace(
                    old(self)@.addr,
                    cp,
                    i as nat,
                    cd,
                    sd,
                ),
            decreases frames@.len() - i,
        {
            if self.i2c.bus_write(self.addr, frames[i].as_slice()).is_err() {
                return Err(NoteError::I2cWriteError);
            }
            self.trace = Ghost(
                self.trace@.push(
                    crate::hal::TraceEvent::Write { addr: self.addr, data: frames@[i as int]@ },
                ),
            );
            delay.delay_ms(self.chunk_delay);
            self.trace = Ghost(
                self.trace@.push(crate::hal::TraceEvent::Delay { ms: self.chunk_delay }),
            );
            i = i + 1;
            if i % crate::chunk::CHUNKS_PER_SEGMENT == 0 || i == frames.len() {
                // A segment boundary (or the end of the request): give the
                // device its longer settle time.
                delay.delay_ms(self.segment_delay);
                self.trace = Ghost(
                    self.trace@.push(crate::hal::TraceEvent::Delay { ms: self.segment_delay }),
                );
            }
            proof {
                let prev = crate::chunk::send_trace(old(self)@.addr, cp, (i - 1) as nat, cd, sd);
                let step = prev + seq![
                    crate::hal::TraceEvent::Write {
                        addr: old(self)@.addr,
                        data: crate::chunk::frame_of(cp[i - 1]),
                    },
                    crate::hal::TraceEvent::Delay { ms: cd },
                ];
                if i as nat % (crate::chunk::CHUNKS_PER_SEGMENT as nat) == 0 || i as nat
                    == cp.len() {
                    assert(crate::chunk::send_trace(old(self)@.addr, cp, i as nat, cd, sd) == step
                        + seq![crate::hal::TraceEvent::Delay { ms: sd }]);
                } else {
                    assert(crate::chunk::send_trace(old(self)@.addr, cp, i as nat, cd, sd)
                        == step);
                }
                assert(self.wire_trace() =~= old(self).wire_trace() + crate::chunk::send_trace(
                    old(self)@.addr,
                    cp,
                    i as nat,
                    cd,
                    sd,
                ));
            }
        }
        self.state = NoteState::Poll(0);
        Ok(())
    }

    /// Dispatch a raw, pre-terminated request. The bytes must end in the
    /// protocol terminator `b'\n'`; otherwise the request is refused as
    /// malformed before anything touches the bus. If a previous exchange
    /// was left unconsumed, the transport resets itself first and then
    /// proceeds. After a successful dispatch the response must be awaited
    /// (see [`Notecard::poll_response`]) before a new request is made.
    pub fn request_raw<D: DelayMs>(&mut self, delay: &mut D, cmd: &[u8]) -> (r: Result<
        (),
        NoteError,
    >)
        requires
            old(self).wf(),
        ensures
            final(self).wf(),
            same_config(final(self)@, old(self)@),
            (cmd@.len() == 0 || cmd@.last() != 10u8) ==> r is Err && r->Err_0 is InvalidRequest
                && final(self)@ =~= old(self)@ && final(self).bus() == old(self).bus()
                && final(self).wire_trace() == old(self).wire_trace(),
            r is Ok ==> final(self)@.state == NoteState::Poll(0) && final(self)@.buf =~= cmd@,
            old(self)@.state is Request && cmd@.len() >= 1 && cmd@.last() == 10u8 && cmd@.len()
                <= old(self)@.cap ==> (r is Ok || (r is Err && r->Err_0 is I2cWriteError)),
            // An oversize request is refused before any bus activity: the
            // transport stays dispatch-ready with an emptied buffer.
            old(self)@.state is Request && cmd@.len() >= 1 && cmd@.last() == 10u8 && cmd@.len()
                > old(self)@.cap ==> r is Err && r->Err_0 is BufOverflow && final(self)@ =~= (
            NoteView { buf: Seq::empty(), ..old(self)@ }) && final(self).bus() == old(self).bus()
                && final(self).wire_trace() == old(self).wire_trace(),
            r is Err && cmd@.len() >= 1 && cmd@.last() == 10u8 ==> !(r->Err_0 is InvalidRequest)
                && !(r->Err_0 is WrongState),
            // From the dispatch-ready state, a successful dispatch put
            // exactly the framed chunks of the command on the wire, in
            // order and with the settle-delay pattern, and nothing else.
            old(self)@.state is Request && r is Ok ==> ({
                let cp = crate::chunk::chunk_payloads(cmd@, crate::chunk::CHUNK_LENGTH as nat);
                final(self).wire_trace() =~= old(self).wire_trace() + crate::chunk::send_trace(
                    old(self)@.addr,
                    cp,
                    cp.len(),
                    old(self)@.chunk_delay,
                    old(self)@.segment_delay,
                )
            }),
    {
        if cmd.len() == 0 || cmd[cmd.len() - 1] != 10u8 {
            return Err(NoteError::InvalidRequest);
        }
        if !matches!(self.state, NoteState::Request) {
            // A previous exchange was not consumed: self-heal by resetting
            // before the new request.
            self.reset(delay)?;
        }
        self.buf.clear();
        if cmd.len() > self.cap {
            return Err(NoteError::BufOverflow);
        }
        self.buf.extend_from_slice(cmd);
        proof {
            assert(self@.buf =~= cmd@);
        }
        self.send_request(delay)
    }

    /// Dispatch a request given as serialized JSON without the terminator:
    /// the bytes are copied into the buffer, the terminator is appended and
    /// the result is transmitted. Fails with a serialization error, without
    /// touching the bus, when the request does not fit the buffer.
    pub fn request<D: DelayMs>(&mut self, delay: &mut D, json: &[u8]) -> (r: Result<
        (),
        NoteError,
    >)
        requires
            old(self).wf(),
        ensures
            final(self).wf(),
            same_config(final(self)@, old(self)@),
            r is Ok ==> final(self)@.state == NoteState::Poll(0) && final(self)@.buf =~= json@
                + seq![10u8],
            old(self)@.state is Request && json@.len() + 1 <= old(self)@.cap ==> (r is Ok || (r
                is Err && r->Err_0 is I2cWriteError)),
            // A request that does not fit (terminator included) is refused
            // before any bus activity: the transport stays dispatch-ready
            // with an emptied buffer.
            old(self)@.state is Request && json@.len() + 1 > old(self)@.cap ==> r is Err
                && r->Err_0 is SerError && final(self)@ =~= (NoteView {
                buf: Seq::empty(),
                ..old(self)@
            }) && final(self).bus() == old(self).bus() && final(self).wire_trace() == old(
                self,
            ).wire_trace(),
            r is Err ==> !(r->Err_0 is InvalidRequest) && !(r->Err_0 is WrongState),
            // From the dispatch-ready state, a successful dispatch put
            // exactly the framed chunks of the terminated request on the
            // wire, in order and with the settle-delay pattern, and
            // nothing else.
            old(self)@.state is Request && r is Ok ==> ({
                let cp = crate::chunk::chunk_payloads(
                    json@ + seq![10u8],
                    crate::chunk::CHUNK_LENGTH as nat,
                );
                final(self).wire_trace() =~= old(self).wire_trace() + crate::chunk::send_trace(
                    old(self)@.addr,
                    cp,
                    cp.len(),
                    old(self)@.chunk_delay,
                    old(self)@.segment_delay,
                )
            }),
    {
        if !matches!(self.state, NoteState::Request) {
            // A previous exchange was not consumed: self-heal by resetting
            // before the new request.
            self.reset(delay)?;
        }
        self.buf.clear();
        if json.len() >= self.cap {
            return Err(NoteError::SerError);
        }
        self.buf.extend_from_slice(json);
        // The terminator tells the device that the request is done.
        self.buf.push(10u8);
        proof {
            assert(self@.buf =~= json@ + seq![10u8]);
        }
        self.send_request(delay)
    }

    /// Drive the pending exchange one step and classify a completed
    /// response. `Ok(None)` means the response is still on its way and the
    /// caller should wait before polling again. A completed payload that
    /// carries the device's error marker is mapped to the error it reports
    /// instead of being returned as data.
    pub fn poll_response(&mut self) -> (r: Result<Option<Vec<u8>>, NoteError>)
        requires
            old(self).wf(),
        ensures
            final(self).wf(),
            same_config(final(self)@, old(self)@),
            (old(self)@.state is Handshake || old(self)@.state is Request) ==> r is Err
                && r->Err_0 is WrongState && final(self)@ =~= old(self)@,
            r is Ok && r->Ok_0 is Some ==> final(self)@.state == NoteState::Request
                && r->Ok_0->Some_0@ == final(self)@.buf && !crate::resp::is_err_payload(
                r->Ok_0->Some_0@,
            ),
            r is Ok && r->Ok_0 is None ==> (final(self)@.state is Poll || final(self)@.state
                is Response),
            r is Err && (r->Err_0 is DFUInProgress || r->Err_0 is NotecardErr || r->Err_0
                is DeserError) ==> final(self)@.state == NoteState::Request
                && crate::resp::is_err_payload(final(self)@.buf) && crate::resp::classified_as(
                final(self)@.buf,
                r->Err_0,
            ),
            r is Err && !(old(self)@.state is Handshake || old(self)@.state is Request) ==> !(
            r->Err_0 is WrongState),
            r is Err ==> !(r->Err_0 is TimeOut) && !(r->Err_0 is InvalidRequest) && !(r->Err_0
                is SerError),
            // With the response already complete, the outcome is fixed by
            // the buffer alone: an ordinary payload is handed out, an
            // error payload classifies to exactly the error it reports.
            old(self)@.state is ResponseReady && !crate::resp::is_err_payload(old(self)@.buf)
                ==> r is Ok && r->Ok_0 is Some && r->Ok_0->Some_0@ == old(self)@.buf,
            old(self)@.state is ResponseReady && crate::resp::is_err_payload(old(self)@.buf) ==> r
                is Err && crate::resp::classified_as(old(self)@.buf, r->Err_0),
            // One poll step never waits: anything it adds to the activity
            // record is a bus transaction.
            trace_extends_without_delays(old(self).wire_trace(), final(self).wire_trace()),
    {
        match self.poll()? {
            Some(body) => {
                if crate::resp::is_err_response(body.as_slice()) {
                    Err(crate::resp::classify_response(body.as_slice()))
                } else {
                    Ok(Some(body))
                }
            },
            None => Ok(None),
        }
    }

    /// Block until the pending response is complete, polling every
    /// [`RESPONSE_DELAY`] milliseconds through the supplied delay source,
    /// and return its raw payload. When the device never produces a
    /// response, a timeout error is returned after [`poll_budget`] poll
    /// attempts, that is after at least the configured response timeout and
    /// less than one poll interval beyond it.
    pub fn wait_response_raw<D: DelayMs>(&mut self, delay: &mut D) -> (r: Result<
        Vec<u8>,
        NoteError,
    >)
        requires
            old(self).wf(),
        ensures
            final(self).wf(),
            same_config(final(self)@, old(self)@),
            (old(self)@.state is Handshake || old(self)@.state is Request) ==> r is Err
                && r->Err_0 is WrongState && final(self)@ =~= old(self)@,
            r is Ok ==> final(self)@.state == NoteState::Request && r->Ok_0@ == final(self)@.buf
                && !crate::resp::is_err_payload(r->Ok_0@),
            r is Err && (r->Err_0 is DFUInProgress || r->Err_0 is NotecardErr || r->Err_0
                is DeserError) ==> final(self)@.state == NoteState::Request
                && crate::resp::is_err_payload(final(self)@.buf) && crate::resp::classified_as(
                final(self)@.buf,
                r->Err_0,
            ),
            r is Err && !(old(self)@.state is Handshake || old(self)@.state is Request) ==> !(
            r->Err_0 is WrongState) && !(r->Err_0 is InvalidRequest) && !(r->Err_0 is SerError),
            // With the response already complete and any positive timeout,
            // the first poll settles the outcome from the buffer alone.
            old(self)@.state is ResponseReady && old(self)@.response_timeout > 0
                && !crate::resp::is_err_payload(old(self)@.buf) ==> r is Ok && r->Ok_0@ == old(
                self,
            )@.buf,
            old(self)@.state is ResponseReady && old(self)@.response_timeout > 0
                && crate::resp::is_err_payload(old(self)@.buf) ==> r is Err
                && crate::resp::classified_as(old(self)@.buf, r->Err_0),
            // A wait that times out performed exactly the poll budget's
            // delays of one poll interval each, interleaved with the poll
            // attempts' bus traffic: together with
            // [`lemma_poll_budget_bounds`], the time spent waiting covers
            // the configured timeout and overshoots it by less than one
            // poll interval.
            r is Err && r->Err_0 is TimeOut ==> old(self).wire_trace().is_prefix_of(
                final(self).wire_trace(),
            ) && delay_events(final(self).wire_trace().skip(old(self).wire_trace().len() as int))
                =~= uniform_delays(poll_budget(old(self)@.response_timeout)),
    {
        if matches!(self.state, NoteState::Handshake) || matches!(self.state, NoteState::Request) {
            return Err(NoteError::WrongState);
        }
        let timeout: u32 = self.response_timeout as u32;
        if timeout == 0 {
            proof {
                assert(poll_budget(old(self)@.response_timeout) == 0);
                let s = self.wire_trace().skip(old(self).wire_trace().len() as int);
                assert(s =~= Seq::<crate::hal::TraceEvent>::empty());
                lemma_no_delay_events(s);
                assert(delay_events(s) =~= uniform_delays(0));
            }
            return Err(NoteError::TimeOut);
        }
        let ghost start = self.wire_trace();
        match self.poll_response()? {
            Some(body) => {
                return Ok(body);
            },
            None => {},
        }
        delay.delay_ms(RESPONSE_DELAY);
        self.trace = Ghost(
            self.trace@.push(crate::hal::TraceEvent::Delay { ms: RESPONSE_DELAY }),
        );
        let mut waited: u32 = RESPONSE_DELAY as u32;
        let ghost mut polls: int = 1;
        proof {
            let s0 = start.skip(start.len() as int);
            assert(s0 =~= Seq::<crate::hal::TraceEvent>::empty());
            lemma_no_delay_events(s0);
            assert(delay_events(s0) =~= uniform_delays(0));
            lemma_delay_events_step(start, start, self.wire_trace(), 0);
        }
        while waited < timeout
            invariant
                self.wf(),
                same_config(self@, old(self)@),
                self@.state is Poll || self@.state is Response || self@.state is ResponseReady,
                !(old(self)@.state is Handshake) && !(old(self)@.state is Request),
                !(old(self)@.state is ResponseReady),
                0 < timeout <= 0xffff,
                polls >= 1,
                waited == 25 * polls,
                waited < timeout + 25,
                start == old(self).wire_trace(),
                start.is_prefix_of(self.wire_trace()),
                delay_events(self.wire_trace().skip(start.len() as int)) =~= uniform_delays(
                    polls as nat,
                ),
            decreases timeout + 25 - waited,
        {
            let ghost pre = self.wire_trace();
            match self.poll_response()? {
                Some(body) => {
                    return Ok(body);
                },
                None => {},
            }
            delay.delay_ms(RESPONSE_DELAY);
            self.trace = Ghost(
                self.trace@.push(crate::hal::TraceEvent::Delay { ms: RESPONSE_DELAY }),
            );
            waited = waited + RESPONSE_DELAY as u32;
            proof {
                polls = polls + 1;
                lemma_delay_events_step(start, pre, self.wire_trace(), (polls - 1) as nat);
            }
        }
        proof {
            // The loop stopped at the first multiple of the poll interval
            // that reaches the timeout: exactly the poll budget.
            let t = timeout as int;
            vstd::arithmetic::div_mod::lemma_fundamental_div_mod(t + 24, 25);
            vstd::arithmetic::div_mod::lemma_mod_bound(t + 24, 25);
            let b = (t + 24) / 25;
            assert(t + 24 == 25 * b + (t + 24) % 25);
            assert(25 * polls >= t && 25 * polls < t + 25);
            assert(polls == b);
            assert(poll_budget(old(self)@.response_timeout) == b);
        }
        Err(NoteError::TimeOut)
    }

    /// Initialize the driver by performing the handshake with the device.
    pub fn initialize<D: DelayMs>(&mut self, delay: &mut D) -> (r: Result<(), NoteError>)
        requires
            old(self).wf(),
        ensures
            final(self).wf(),
            same_config(final(self)@, old(self)@),
            r is Ok ==> final(self)@.state == NoteState::Request && final(self)@.buf.len() == 0,
            r is Err && r->Err_0 is TimeOut ==> final(self)@.buf.len() == 0,
            r is Err ==> !(r->Err_0 is WrongState) && !(r->Err_0 is InvalidRequest),
    {
        self.reset(delay)
    }
}

/// What an exchange's response buffer accumulates: each received read
/// chunk's payload (everything past its two header bytes) appended in
/// arrival order, exactly as [`Notecard::ingest_read_chunk`] does.
pub open spec fn reassembled(chunks: Seq<Seq<u8>>) -> Seq<u8>
    decreases chunks.len(),
{
    if chunks.len() == 0 {
        Seq::empty()
    } else {
        reassembled(chunks.drop_last()) + chunks.last().skip(2)
    }
}

/// Response reassembly loses, duplicates and reorders nothing: whatever
/// availability increments the device chooses, the buffer accumulated over
/// an exchange equals the concatenation of the payload parts of the
/// received chunks, in order.
pub proof fn lemma_response_reassembly(chunks: Seq<Seq<u8>>)
    ensures
        reassembled(chunks) =~= chunks.map_values(|c: Seq<u8>| c.skip(2)).flatten(),
    decreases chunks.len(),
{
    broadcast use Seq::lemma_flatten_push;

    let payloads = |c: Seq<u8>| c.skip(2);
    if chunks.len() > 0 {
        lemma_response_reassembly(chunks.drop_last());
        assert(chunks.map_values(payloads) =~= chunks.drop_last().map_values(payloads).push(
            payloads(chunks.last()),
        ));
    }
}

/// The number of poll attempts [`Notecard::wait_response_raw`] makes before
/// giving up: the smallest count of [`RESPONSE_DELAY`]-millisecond waits
/// that covers the configured response timeout.
pub open spec fn poll_budget(timeout_ms: u16) -> nat {
    ((timeout_ms + RESPONSE_DELAY - 1) / (RESPONSE_DELAY as int)) as nat
}

/// A wait that times out does so no sooner than the configured timeout and
/// no later than one poll interval past it: the total time spent in the
/// poll budget's delays lies in that window.
pub proof fn lemma_poll_budget_bounds(timeout_ms: u16)
    ensures
        poll_budget(timeout_ms) * RESPONSE_DELAY >= timeout_ms,
        poll_budget(timeout_ms) * RESPONSE_DELAY < timeout_ms + RESPONSE_DELAY,
{
    let t = timeout_ms as int;
    let d = RESPONSE_DELAY as int;
    vstd::arithmetic::div_mod::lemma_fundamental_div_mod(t + d - 1, d);
    vstd::arithmetic::div_mod::lemma_mod_bound(t + d - 1, d);
    let q = (t + d - 1) / d;
    let m = (t + d - 1) % d;
    assert(t + d - 1 == q * d + m);
    assert(0 <= m < d);
    assert(q * d == t + d - 1 - m);
    assert(poll_budget(timeout_ms) == q);
    assert(poll_budget(timeout_ms) * RESPONSE_DELAY == q * d) by {
        assert(RESPONSE_DELAY as int == d);
    }
}

/// Suspending and then resuming with the same bus handle reconstructs a
/// transport observably identical to the one suspended: the snapshot
/// carries the whole abstract state, and `resume` restores it unchanged.
pub proof fn lemma_suspend_resume_identity<IOM: I2cBus>(t: Notecard<IOM>, s: SuspendState, r: Notecard<IOM>)
    requires
        s@ == t@,
        r@ == s@,
        r.bus() == t.bus(),
    ensures
        r@ == t@,
{
}

} // verus!
