//! The input-method client as a state machine.
//!
//! Each public method takes what the protocol engine reported (or what the
//! application asked for), updates the client's state and returns the request
//! that the caller must hand to the engine next, if any.

use vstd::prelude::*;

use crate::style::InputStyle;

verus! {

/// X11 core event code of a key press.
pub const KEY_PRESS: u8 = 2;

/// X11 core event code of a key release.
pub const KEY_RELEASE: u8 = 3;

/// Where the candidate window should appear, relative to a target window.
#[derive(Clone, Copy, Debug, PartialEq, Eq, Structural)]
pub struct ImePos {
    pub win: u32,
    pub x: i16,
    pub y: i16,
}

/// Whether a server-side input context exists.
#[derive(Clone, Copy, Debug, PartialEq, Eq, Structural)]
pub enum ContextState {
    /// No context, and none requested.
    Closed,
    /// An open request was issued and has not completed yet.
    Opening,
    /// The context with this handle is open.
    Open(u32),
}

/// A request that the caller must pass on to the protocol engine.
#[derive(Clone, Copy, Debug, PartialEq, Eq, Structural)]
pub enum Request {
    /// Open the connection to the input-method server.
    OpenIm,
    /// Create an input context with this style, bound to `pos.win`, with its
    /// spot location at `pos`.
    CreateIc { style: u32, pos: ImePos },
    /// Give the input focus to a newly created context.
    SetIcFocus { ic: u32 },
    /// Update the spot location of the context to `pos`; when
    /// `window_changed`, also rebind its client and focus windows to `pos.win`.
    SetIcValues { ic: u32, pos: ImePos, window_changed: bool },
    /// Forward the key event being processed to the context.
    ForwardEvent { ic: u32 },
    /// Destroy the context.
    DestroyIc { ic: u32 },
    /// Close the connection to the server and release the engine.
    CloseIm,
}

/// What a call decided: whether the client took charge (the event was handled,
/// the placement was sent), and the request to pass on.
#[derive(Clone, Copy, Debug, PartialEq, Eq, Structural)]
pub struct Step {
    pub handled: bool,
    pub request: Option<Request>,
}

/// The user callbacks that a server notification can reach.
#[derive(Clone, Copy, Debug, PartialEq, Eq, Structural)]
pub enum Notification {
    CommitString,
    ForwardEvent,
    PreeditStart,
    PreeditDraw,
    PreeditDone,
}

/// The abstract state of a client.
pub struct ClientModel {
    pub context: ContextState,
    pub style: InputStyle,
    /// The placement of the last send (or of the context's creation).
    pub pos_cur: ImePos,
    /// The placement the application asked for last.
    pub pos_req: ImePos,
    /// A placement update awaits the server's acknowledgment.
    pub in_flight: bool,
    /// A newer placement arrived while an update was in flight.
    pub queued: bool,
}

pub open spec fn origin() -> ImePos {
    ImePos { win: 0, x: 0, y: 0 }
}

/// Whether an event code, with the "sent by SendEvent" bit cleared, is a key
/// press or a key release.
pub open spec fn is_key_code(response_type: u8) -> bool {
    response_type % 128 == KEY_PRESS || response_type % 128 == KEY_RELEASE
}

/// Open a context unless one exists or is being opened.
pub open spec fn open_step(m: ClientModel) -> (ClientModel, Option<Request>) {
    match m.context {
        ContextState::Closed => (ClientModel { context: ContextState::Opening, ..m }, Some(Request::OpenIm)),
        _ => (m, None),
    }
}

/// Send the requested placement to context `ic`.
pub open spec fn send_step(m: ClientModel, ic: u32) -> (ClientModel, Request) {
    (
        ClientModel { in_flight: true, pos_cur: m.pos_req, ..m },
        Request::SetIcValues { ic, pos: m.pos_req, window_changed: m.pos_req.win != m.pos_cur.win },
    )
}

/// The application asks for a new placement.
pub open spec fn update_pos_step(m: ClientModel, pos: ImePos) -> (ClientModel, Step) {
    let m1 = ClientModel { pos_req: pos, ..m };
    match m1.context {
        ContextState::Open(ic) => if m1.in_flight {
            (ClientModel { queued: true, ..m1 }, Step { handled: false, request: None })
        } else {
            (send_step(m1, ic).0, Step { handled: true, request: Some(send_step(m1, ic).1) })
        },
        _ => (open_step(m1).0, Step { handled: false, request: open_step(m1).1 }),
    }
}

/// The server acknowledged a placement update on context `ic`.
pub open spec fn pos_updated_step(m: ClientModel, ic: u32) -> (ClientModel, Option<Request>) {
    if m.queued {
        let m1 = ClientModel { queued: false, ..m };
        (send_step(m1, ic).0, Some(send_step(m1, ic).1))
    } else {
        (ClientModel { in_flight: false, ..m }, None)
    }
}

/// An input event that the engine's filter did or did not consume.
pub open spec fn process_event_step(m: ClientModel, filtered: bool, response_type: u8) -> (ClientModel, Step) {
    if filtered {
        (m, Step { handled: true, request: None })
    } else if is_key_code(response_type) {
        match m.context {
            ContextState::Open(ic) => (m, Step { handled: true, request: Some(Request::ForwardEvent { ic }) }),
            _ => (open_step(m).0, Step { handled: false, request: open_step(m).1 }),
        }
    } else {
        (m, Step { handled: false, request: None })
    }
}

/// The connection to the server is open: create a context at the requested
/// placement.
pub open spec fn im_opened_step(m: ClientModel) -> (ClientModel, Request) {
    (ClientModel { pos_cur: m.pos_req, ..m }, Request::CreateIc { style: m.style.bits, pos: m.pos_req })
}

/// The server created context `ic`.
pub open spec fn ic_created_step(m: ClientModel, ic: u32) -> (ClientModel, Request) {
    (ClientModel { context: ContextState::Open(ic), ..m }, Request::SetIcFocus { ic })
}

/// The server went away, or the open request failed: no context remains.
pub open spec fn closed_step(m: ClientModel) -> ClientModel {
    ClientModel { context: ContextState::Closed, ..m }
}

/// What tearing the client down asks for: the open context is destroyed
/// first, then the connection is closed.
pub open spec fn teardown_requests(m: ClientModel) -> Seq<Request> {
    match m.context {
        ContextState::Open(ic) => seq![Request::DestroyIc { ic }, Request::CloseIm],
        _ => seq![Request::CloseIm],
    }
}

/// Whether a notification reaches its user callback under `style`.
pub open spec fn delivers(style: InputStyle, n: Notification) -> bool {
    match n {
        Notification::CommitString | Notification::ForwardEvent => true,
        _ => style.has_preedit_callbacks(),
    }
}

/// Input Method Editor client.
///
/// One client per application: it tracks the input context, the requested and
/// the last sent placement, and whether a placement update is in flight.
pub struct ImeClient {
    context: ContextState,
    input_style: InputStyle,
    pos_cur: ImePos,
    pos_req: ImePos,
    is_processing_pos_update: bool,
    pos_update_queued: bool,
}

impl View for ImeClient {
    type V = ClientModel;

    closed spec fn view(&self) -> ClientModel {
        ClientModel {
            context: self.context,
            style: self.input_style,
            pos_cur: self.pos_cur,
            pos_req: self.pos_req,
            in_flight: self.is_processing_pos_update,
            queued: self.pos_update_queued,
        }
    }
}

impl ImeClient {
    /// A client with no context, both placements at the origin of window 0,
    /// and no update in flight.
    pub fn new(input_style: InputStyle) -> (r: ImeClient)
        ensures
            r@.context == ContextState::Closed,
            r@.style == input_style,
            r@.pos_cur == origin(),
            r@.pos_req == origin(),
            !r@.in_flight,
            !r@.queued,
    {
        ImeClient {
            context: ContextState::Closed,
            input_style,
            pos_cur: ImePos { win: 0, x: 0, y: 0 },
            pos_req: ImePos { win: 0, x: 0, y: 0 },
            is_processing_pos_update: false,
            pos_update_queued: false,
        }
    }

    /// The negotiated input style.
    pub fn input_style(&self) -> (r: InputStyle)
        ensures
            r == self@.style,
    {
        self.input_style
    }

    /// Whether a context exists or is being opened.
    pub fn context(&self) -> (r: ContextState)
        ensures
            r == self@.context,
    {
        self.context
    }

    /// The placement of the last send.
    pub fn current_pos(&self) -> (r: ImePos)
        ensures
            r == self@.pos_cur,
    {
        self.pos_cur
    }

    /// The placement the application asked for last.
    pub fn requested_pos(&self) -> (r: ImePos)
        ensures
            r == self@.pos_req,
    {
        self.pos_req
    }

    /// Whether a placement update awaits acknowledgment.
    pub fn is_update_in_flight(&self) -> (r: bool)
        ensures
            r == self@.in_flight,
    {
        self.is_processing_pos_update
    }

    /// Whether a newer placement waits for the in-flight update to complete.
    pub fn is_update_queued(&self) -> (r: bool)
        ensures
            r == self@.queued,
    {
        self.pos_update_queued
    }

    /// The window that user callbacks are told about: the last requested one.
    pub fn callback_window(&self) -> (r: u32)
        ensures
            r == self@.pos_req.win,
    {
        self.pos_req.win
    }

    /// Ask for a context unless one exists or is being opened.
    fn try_open_ic(&mut self) -> (r: Option<Request>)
        ensures
            (final(self)@, r) == open_step(old(self)@),
    {
        match self.context {
            ContextState::Closed => {
                self.context = ContextState::Opening;
                Some(Request::OpenIm)
            },
            _ => None,
        }
    }

    /// Send the requested placement, and remember it as the current one.
    fn send_pos_update(&mut self, ic: u32) -> (r: Request)
        ensures
            (final(self)@, r) == send_step(old(self)@, ic),
    {
        self.is_processing_pos_update = true;
        let window_changed = self.pos_req.win != self.pos_cur.win;
        let r = Request::SetIcValues { ic, pos: self.pos_req, window_changed };
        self.pos_cur = self.pos_req;
        r
    }

    /// Set where the candidate window should appear, relative to window `win`.
    ///
    /// `handled` is true when an update was sent now. Without a context one is
    /// requested and the placement waits for it; with an update in flight the
    /// placement is queued, replacing any placement queued before.
    pub fn update_pos(&mut self, win: u32, x: i16, y: i16) -> (r: Step)
        ensures
            (final(self)@, r) == update_pos_step(old(self)@, ImePos { win, x, y }),
    {
        self.pos_req = ImePos { win, x, y };
        match self.context {
            ContextState::Open(ic) => {
                if self.is_processing_pos_update {
                    self.pos_update_queued = true;
                    return Step { handled: false, request: None };
                }
                let req = self.send_pos_update(ic);
                Step { handled: true, request: Some(req) }
            },
            _ => {
                let req = self.try_open_ic();
                Step { handled: false, request: req }
            },
        }
    }

    /// The server acknowledged a placement update on context `ic`: send the
    /// latest placement if one was queued meanwhile.
    pub fn on_pos_updated(&mut self, ic: u32) -> (r: Option<Request>)
        ensures
            (final(self)@, r) == pos_updated_step(old(self)@, ic),
    {
        if self.pos_update_queued {
            self.pos_update_queued = false;
            Some(self.send_pos_update(ic))
        } else {
            self.is_processing_pos_update = false;
            None
        }
    }

    /// Decide an input event after the engine's filter has seen it.
    ///
    /// `filtered` is what the filter reported; `response_type` is the event's
    /// code. A key event that the filter left is forwarded to the context, or,
    /// with no context yet, left to the application while one is requested.
    pub fn process_event(&mut self, filtered: bool, response_type: u8) -> (r: Step)
        ensures
            (final(self)@, r) == process_event_step(old(self)@, filtered, response_type),
    {
        if filtered {
            return Step { handled: true, request: None };
        }
        if is_key_event(response_type) {
            match self.context {
                ContextState::Open(ic) => {
                    return Step { handled: true, request: Some(Request::ForwardEvent { ic }) };
                },
                _ => {
                    let req = self.try_open_ic();
                    return Step { handled: false, request: req };
                },
            }
        }
        Step { handled: false, request: None }
    }

    /// The connection to the server is open: create a context bound to the
    /// requested window, which becomes the current placement.
    pub fn on_im_opened(&mut self) -> (r: Request)
        ensures
            (final(self)@, r) == im_opened_step(old(self)@),
    {
        let r = Request::CreateIc { style: self.input_style.bits(), pos: self.pos_req };
        self.pos_cur = self.pos_req;
        r
    }

    /// The server created context `ic`: it is kept and given the focus.
    pub fn on_ic_created(&mut self, ic: u32) -> (r: Request)
        ensures
            (final(self)@, r) == ic_created_step(old(self)@, ic),
    {
        self.context = ContextState::Open(ic);
        Request::SetIcFocus { ic }
    }

    /// The server disconnected: the context is gone. Placement bookkeeping is
    /// left as it is.
    pub fn on_disconnected(&mut self)
        ensures
            final(self)@ == closed_step(old(self)@),
    {
        self.context = ContextState::Closed;
    }

    /// Opening the connection or creating the context failed: the next event
    /// or placement that needs a context asks again.
    pub fn on_open_failed(&mut self)
        ensures
            final(self)@ == closed_step(old(self)@),
    {
        self.context = ContextState::Closed;
    }

    /// End the client: the requests that tear down its context, if one is
    /// open, and then its connection.
    pub fn teardown(self) -> (r: Vec<Request>)
        ensures
            r@ == teardown_requests(self@),
    {
        let mut r: Vec<Request> = Vec::new();
        if let ContextState::Open(ic) = self.context {
            r.push(Request::DestroyIc { ic });
        }
        r.push(Request::CloseIm);
        r
    }

    /// Whether notification `n` reaches its user callback: the pre-edit
    /// callbacks only where the style enables them.
    pub fn should_deliver(&self, n: Notification) -> (r: bool)
        ensures
            r == delivers(self@.style, n),
    {
        match n {
            Notification::CommitString | Notification::ForwardEvent => true,
            _ => self.input_style.contains_preedit_callbacks(),
        }
    }
}

/// Whether an event code is a key press or a key release, ignoring the bit
/// that marks events sent by another client.
pub fn is_key_event(response_type: u8) -> (r: bool)
    ensures
        r == is_key_code(response_type),
{
    let mask = response_type & 0x7f;
    assert(response_type & 0x7f == response_type % 128) by (bit_vector);
    mask == KEY_PRESS || mask == KEY_RELEASE
}

/// Whether a key event code is a press, as opposed to a release.
pub fn is_key_press(response_type: u8) -> (r: bool)
    ensures
        r == (response_type % 128 == KEY_PRESS),
{
    let mask = response_type & 0x7f;
    assert(response_type & 0x7f == response_type % 128) by (bit_vector);
    mask == KEY_PRESS
}

} // verus!
