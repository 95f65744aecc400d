use xcb_imdkit::client::{is_key_event, is_key_press, KEY_PRESS, KEY_RELEASE};
use xcb_imdkit::{ContextState, ImeClient, ImePos, InputStyle, Notification, Request, Step};

const IC: u32 = 42;

fn open_client(style: InputStyle) -> ImeClient {
    let mut c = ImeClient::new(style);
    let step = c.process_event(false, KEY_PRESS);
    assert_eq!(step.request, Some(Request::OpenIm));
    c.on_im_opened();
    assert_eq!(c.on_ic_created(IC), Request::SetIcFocus { ic: IC });
    c
}

#[test]
fn new_client_is_closed_at_origin() {
    let c = ImeClient::new(InputStyle::default_style());
    assert_eq!(c.context(), ContextState::Closed);
    assert_eq!(c.current_pos(), ImePos { win: 0, x: 0, y: 0 });
    assert_eq!(c.requested_pos(), ImePos { win: 0, x: 0, y: 0 });
    assert!(!c.is_update_in_flight());
    assert!(!c.is_update_queued());
}

#[test]
fn two_rapid_placements_coalesce() {
    let mut c = open_client(InputStyle::default_style());
    c.update_pos(7, 0, 0);
    c.on_pos_updated(IC);
    let first = c.update_pos(7, 10, 20);
    assert_eq!(
        first,
        Step {
            handled: true,
            request: Some(Request::SetIcValues {
                ic: IC,
                pos: ImePos { win: 7, x: 10, y: 20 },
                window_changed: false,
            }),
        }
    );
    let second = c.update_pos(7, 15, 25);
    assert_eq!(second, Step { handled: false, request: None });
    let resend = c.on_pos_updated(IC);
    assert_eq!(
        resend,
        Some(Request::SetIcValues {
            ic: IC,
            pos: ImePos { win: 7, x: 15, y: 25 },
            window_changed: false,
        })
    );
    assert_eq!(c.current_pos(), ImePos { win: 7, x: 15, y: 25 });
    assert_eq!(c.on_pos_updated(IC), None);
    assert!(!c.is_update_in_flight());
}

#[test]
fn many_placements_in_flight_send_only_the_last() {
    let mut c = open_client(InputStyle::default_style());
    assert!(c.update_pos(3, 1, 1).handled);
    for i in 0..50i16 {
        assert_eq!(c.update_pos(4, i, -i), Step { handled: false, request: None });
    }
    assert_eq!(
        c.on_pos_updated(IC),
        Some(Request::SetIcValues {
            ic: IC,
            pos: ImePos { win: 4, x: 49, y: -49 },
            window_changed: true,
        })
    );
    assert_eq!(c.on_pos_updated(IC), None);
}

#[test]
fn window_change_rebinds_only_when_window_differs() {
    let mut c = open_client(InputStyle::default_style());
    match c.update_pos(9, 5, 5).request {
        Some(Request::SetIcValues { window_changed, .. }) => assert!(window_changed),
        other => panic!("unexpected {:?}", other),
    }
    c.on_pos_updated(IC);
    match c.update_pos(9, 6, 6).request {
        Some(Request::SetIcValues { window_changed, .. }) => assert!(!window_changed),
        other => panic!("unexpected {:?}", other),
    }
    c.on_pos_updated(IC);
    match c.update_pos(10, 6, 6).request {
        Some(Request::SetIcValues { window_changed, .. }) => assert!(window_changed),
        other => panic!("unexpected {:?}", other),
    }
}

#[test]
fn placement_without_context_opens_one_and_is_used_at_creation() {
    let mut c = ImeClient::new(InputStyle::preedit_callbacks());
    assert_eq!(c.update_pos(5, 1, 2), Step { handled: false, request: Some(Request::OpenIm) });
    assert_eq!(c.context(), ContextState::Opening);
    assert_eq!(c.update_pos(6, 3, 4), Step { handled: false, request: None });
    assert_eq!(
        c.on_im_opened(),
        Request::CreateIc { style: 2, pos: ImePos { win: 6, x: 3, y: 4 } }
    );
    assert_eq!(c.current_pos(), ImePos { win: 6, x: 3, y: 4 });
    c.on_ic_created(IC);
    assert_eq!(c.context(), ContextState::Open(IC));
}

#[test]
fn key_press_without_context_opens_once() {
    let mut c = ImeClient::new(InputStyle::default_style());
    assert_eq!(
        c.process_event(false, KEY_PRESS),
        Step { handled: false, request: Some(Request::OpenIm) }
    );
    assert_eq!(c.process_event(false, KEY_RELEASE), Step { handled: false, request: None });
    assert_eq!(c.process_event(false, KEY_PRESS), Step { handled: false, request: None });
    assert_eq!(c.context(), ContextState::Opening);
}

#[test]
fn key_event_with_context_is_forwarded() {
    let mut c = open_client(InputStyle::default_style());
    assert_eq!(
        c.process_event(false, KEY_PRESS | 0x80),
        Step { handled: true, request: Some(Request::ForwardEvent { ic: IC }) }
    );
    assert_eq!(
        c.process_event(false, KEY_RELEASE),
        Step { handled: true, request: Some(Request::ForwardEvent { ic: IC }) }
    );
}

#[test]
fn filtered_event_is_handled_and_other_events_are_not() {
    let mut c = ImeClient::new(InputStyle::default_style());
    assert_eq!(c.process_event(true, KEY_PRESS), Step { handled: true, request: None });
    assert_eq!(c.process_event(false, 12), Step { handled: false, request: None });
    assert_eq!(c.context(), ContextState::Closed);
}

#[test]
fn disconnect_closes_and_next_key_reopens() {
    let mut c = open_client(InputStyle::default_style());
    c.on_disconnected();
    assert_eq!(c.context(), ContextState::Closed);
    assert_eq!(
        c.process_event(false, KEY_PRESS),
        Step { handled: false, request: Some(Request::OpenIm) }
    );
}

#[test]
fn failed_open_is_retried_on_next_use() {
    let mut c = ImeClient::new(InputStyle::default_style());
    c.update_pos(1, 1, 1);
    c.on_open_failed();
    assert_eq!(c.context(), ContextState::Closed);
    assert_eq!(c.update_pos(1, 2, 2), Step { handled: false, request: Some(Request::OpenIm) });
}

#[test]
fn default_style_gates_preedit_callbacks() {
    let c = ImeClient::new(InputStyle::default_style());
    assert!(c.should_deliver(Notification::CommitString));
    assert!(c.should_deliver(Notification::ForwardEvent));
    assert!(!c.should_deliver(Notification::PreeditStart));
    assert!(!c.should_deliver(Notification::PreeditDraw));
    assert!(!c.should_deliver(Notification::PreeditDone));
}

#[test]
fn preedit_style_delivers_every_notification() {
    let c = ImeClient::new(InputStyle::preedit_callbacks());
    for n in [
        Notification::CommitString,
        Notification::ForwardEvent,
        Notification::PreeditStart,
        Notification::PreeditDraw,
        Notification::PreeditDone,
    ] {
        assert!(c.should_deliver(n));
    }
}

#[test]
fn callbacks_get_the_requested_window() {
    let mut c = open_client(InputStyle::default_style());
    c.update_pos(11, 0, 0);
    c.update_pos(12, 0, 0);
    assert_eq!(c.callback_window(), 12);
}

#[test]
fn key_codes_ignore_the_send_event_bit() {
    assert!(is_key_event(2));
    assert!(is_key_event(3));
    assert!(is_key_event(0x82));
    assert!(is_key_event(0x83));
    assert!(!is_key_event(4));
    assert!(!is_key_event(0));
    assert!(is_key_press(0x82));
    assert!(!is_key_press(3));
}

#[test]
fn teardown_destroys_context_before_closing() {
    let c = open_client(InputStyle::default_style());
    assert_eq!(c.teardown(), vec![Request::DestroyIc { ic: IC }, Request::CloseIm]);
    let c = ImeClient::new(InputStyle::default_style());
    assert_eq!(c.teardown(), vec![Request::CloseIm]);
}
