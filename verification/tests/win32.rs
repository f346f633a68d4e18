use lib::win32::{
    accent_rgb, apply_message, caption_change, caption_hit, classify_message, client_size,
    cursor_resource, damage_plan, fullscreen_style, inset_for_maximized, lparam_point,
    maximize_command, modifiers_from_key_states, present_plan, pump_step, raw_input_accepted, rect_extent,
    resize_edge, DamagePlan, DamageStrip, PresentPlan, PumpAction, PumpEvent, WindowMessage, HTBOTTOM, HTBOTTOMRIGHT,
    HTCAPTION, HTCLIENT, HTLEFT, HTTOPLEFT, MONITORINFO_SIZE, SW_MAXIMIZE, SW_RESTORE,
    WM_CHAR, WM_CLOSE, WM_DPICHANGED, WM_KEYDOWN, WM_KEYUP, WM_LBUTTONDBLCLK, WM_LBUTTONDOWN,
    WM_LBUTTONUP, WM_MOUSELEAVE, WM_MOUSEMOVE, WM_MOUSEWHEEL, WM_NCCALCSIZE, WM_NCHITTEST,
    WM_QUIT, WM_SETCURSOR, WM_SYSKEYDOWN, WM_XBUTTONDOWN, WM_XBUTTONUP, WS_MAXIMIZE, WS_POPUP,
    WS_VISIBLE,
};
use lib::{
    get_style_flags, CursorIcon, InputState, Key, Modifiers, Mouse, Rect, WindowStyle, GUID,
    MONITORINFO, MSG, POINT, RECT,
};

#[test]
fn guid_from_u128_splits_fields() {
    let g = GUID::from_u128(0x6B29FC40_CA47_1067_B31D_00DD010662DA);
    assert_eq!(g.data1, 0x6B29FC40);
    assert_eq!(g.data2, 0xCA47);
    assert_eq!(g.data3, 0x1067);
    assert_eq!(g.data4, [0xB3, 0x1D, 0x00, 0xDD, 0x01, 0x06, 0x62, 0xDA]);
}

#[test]
fn rect_from_windows_is_at_origin() {
    let r = Rect::from_windows(RECT { left: 10, top: 20, right: 110, bottom: 70 });
    assert_eq!(r, Rect::new(0, 0, 100, 50));
    let s = Rect::from_windows(RECT { left: i32::MIN, top: 0, right: i32::MAX, bottom: 0 });
    assert_eq!(s.width, i32::MAX);
}

#[test]
fn msg_new_is_zero() {
    let m = MSG::new();
    assert_eq!(m.message, 0);
    assert_eq!(m.pt, POINT { x: 0, y: 0 });
    assert_eq!(m, MSG::default());
}

#[test]
fn monitorinfo_default_has_size() {
    let m = MONITORINFO::default();
    assert_eq!(m.cbSize, MONITORINFO_SIZE);
    assert_eq!(m.cbSize, 40);
    assert_eq!(m.rcMonitor, RECT::default());
}

#[test]
fn style_flags() {
    assert_eq!(get_style_flags(WindowStyle::Standard), (0x10CF0000, 0));
    assert_eq!(get_style_flags(WindowStyle::Borderless), (WS_POPUP | WS_VISIBLE, 0));
    assert_eq!(get_style_flags(WindowStyle::Transparent), (WS_POPUP | WS_VISIBLE, 0));
    assert_eq!(fullscreen_style(), WS_POPUP | WS_VISIBLE | WS_MAXIMIZE);
}

#[test]
fn maximize_toggles() {
    assert_eq!(maximize_command(true), SW_RESTORE);
    assert_eq!(maximize_command(false), SW_MAXIMIZE);
}

#[test]
fn cursor_resources() {
    assert_eq!(cursor_resource(CursorIcon::Arrow), 32512);
    assert_eq!(cursor_resource(CursorIcon::IBeam), 32513);
    assert_eq!(cursor_resource(CursorIcon::PointingHand), 32649);
    assert_eq!(cursor_resource(CursorIcon::ClosedHand), 32512);
    assert_eq!(cursor_resource(CursorIcon::ResizeUpDown), 32645);
}

#[test]
fn accent_drops_alpha() {
    assert_eq!(accent_rgb(0xC40078D7), 0x0078D7);
}

#[test]
fn extents_and_sizes() {
    assert_eq!(rect_extent(RECT { left: -10, top: 5, right: 1910, bottom: 1085 }), (1920, 1080));
    assert_eq!(client_size(Rect::new(0, 0, 640, -3)), (640, 0));
}

#[test]
fn lparam_point_is_signed() {
    assert_eq!(lparam_point(0x0002_0001), (1, 2));
    assert_eq!(lparam_point(0xFFFF_FFFEu32 as isize), (-2, -1));
}

#[test]
fn classify_keys() {
    assert_eq!(classify_message(WM_KEYDOWN, 0x41, 0, 0), WindowMessage::KeyDown(Key::Char('A')));
    assert_eq!(classify_message(WM_SYSKEYDOWN, 0x12, 0, 0), WindowMessage::KeyDown(Key::Alt));
    assert_eq!(classify_message(WM_KEYUP, 0x70, 0, 0), WindowMessage::KeyUp(Key::Function(1)));
}

#[test]
fn classify_chars() {
    assert_eq!(classify_message(WM_CHAR, 'a' as usize, 0, 0), WindowMessage::Char(Some('a')));
    assert_eq!(classify_message(WM_CHAR, 0xE9, 0, 0), WindowMessage::Char(Some('é')));
    assert_eq!(classify_message(WM_CHAR, 0xD800, 0, 0), WindowMessage::Char(None));
    assert_eq!(classify_message(WM_CHAR, 0x110000, 0, 0), WindowMessage::Char(None));
}

#[test]
fn classify_mouse() {
    assert_eq!(
        classify_message(WM_LBUTTONDOWN, 0, 0, 0),
        WindowMessage::ButtonDown { button: Mouse::Left, double: false }
    );
    assert_eq!(
        classify_message(WM_LBUTTONDBLCLK, 0, 0, 0),
        WindowMessage::ButtonDown { button: Mouse::Left, double: true }
    );
    assert_eq!(
        classify_message(WM_XBUTTONDOWN, 0x0002_0000, 0, 0),
        WindowMessage::ButtonDown { button: Mouse::Forward, double: false }
    );
    assert_eq!(classify_message(WM_XBUTTONDOWN, 0x0003_0000, 0, 0), WindowMessage::Unhandled);
    assert_eq!(
        classify_message(WM_LBUTTONUP, 0x0002, 0, 0),
        WindowMessage::ButtonUp { released: Some(Mouse::Left), release_capture: false }
    );
    assert_eq!(
        classify_message(WM_XBUTTONUP, 0x0001_0000, 0, 0),
        WindowMessage::ButtonUp { released: Some(Mouse::Back), release_capture: true }
    );
    assert_eq!(
        classify_message(WM_XBUTTONUP, 0x0005_0000, 0, 0),
        WindowMessage::ButtonUp { released: None, release_capture: true }
    );
    assert_eq!(classify_message(WM_MOUSEMOVE, 0, 0, 0), WindowMessage::MouseMove);
    assert_eq!(classify_message(WM_MOUSELEAVE, 0, 0, 0), WindowMessage::MouseLeave);
    assert_eq!(
        classify_message(WM_MOUSEWHEEL, 0xFF88_0000, 0, 0),
        WindowMessage::MouseWheel { delta: -120 }
    );
}

#[test]
fn classify_frame_messages() {
    assert_eq!(classify_message(WM_CLOSE, 0, 0, 0), WindowMessage::Close);
    assert_eq!(classify_message(WM_NCCALCSIZE, 1, 0, 30), WindowMessage::NcCalcSize);
    assert_eq!(classify_message(WM_NCCALCSIZE, 1, 0, 0), WindowMessage::Unhandled);
    assert_eq!(classify_message(WM_NCCALCSIZE, 0, 0, 30), WindowMessage::Unhandled);
    assert_eq!(classify_message(WM_NCHITTEST, 0, 0, 30), WindowMessage::NcHitTest);
    assert_eq!(classify_message(WM_NCHITTEST, 0, 0, 0), WindowMessage::Unhandled);
    assert_eq!(classify_message(WM_SETCURSOR, 0, 0x0200_0001, 0), WindowMessage::SetCursor);
    assert_eq!(classify_message(WM_SETCURSOR, 0, 2, 0), WindowMessage::Unhandled);
    assert_eq!(
        classify_message(WM_DPICHANGED, 0x0090_0090, 0, 0),
        WindowMessage::DpiChanged { dpi: 144 }
    );
    assert_eq!(classify_message(0x7FFF, 0, 0, 0), WindowMessage::Unhandled);
}

#[test]
fn key_messages_track_the_key() {
    let mut input: InputState<(f64, f64)> = InputState::new();
    let m = Modifiers { shift: true, ctrl: false, alt: false, logo: false };
    apply_message(&mut input, classify_message(WM_KEYDOWN, 0x41, 0, 0), (0.0, 0.0), m);
    assert!(input.is_down(Key::Char('a')));
    assert!(input.pressed(Key::Char('A')));
    assert_eq!(input.modifiers(), m);
    apply_message(&mut input, classify_message(WM_KEYUP, 0x41, 0, 0), (0.0, 0.0), m);
    assert!(!input.is_down(Key::Char('A')));
}

#[test]
fn click_messages_make_a_click() {
    let mut input: InputState<(f64, f64)> = InputState::new();
    let m = Modifiers::default();
    apply_message(&mut input, classify_message(WM_LBUTTONDOWN, 1, 0, 0), (2.0, 3.0), m);
    apply_message(&mut input, classify_message(WM_LBUTTONUP, 0, 0, 0), (4.0, 5.0), m);
    assert_eq!(input.mouse_click_positions(Mouse::Left), Some(((2.0, 3.0), (4.0, 5.0))));
    apply_message(&mut input, classify_message(WM_MOUSELEAVE, 0, 0, 0), (0.0, 0.0), m);
    assert_eq!(input.mouse_pos(), None);
}

#[test]
fn char_messages_type_text() {
    let mut input: InputState<(f64, f64)> = InputState::new();
    let m = Modifiers::default();
    apply_message(&mut input, classify_message(WM_CHAR, 'x' as usize, 0, 0), (0.0, 0.0), m);
    apply_message(&mut input, classify_message(WM_CHAR, 0x0D, 0, 0), (0.0, 0.0), m);
    apply_message(&mut input, classify_message(WM_CHAR, 0xDFFF, 0, 0), (0.0, 0.0), m);
    assert_eq!(input.text_input(), &['x']);
}

#[test]
fn modifiers_from_high_bits() {
    let m = modifiers_from_key_states(-128, 1, 0, 0, -1);
    assert_eq!(m, Modifiers { shift: true, ctrl: false, alt: false, logo: true });
    let n = modifiers_from_key_states(0x7FFF, i16::MIN, 0, 0, 0);
    assert_eq!(n, Modifiers { shift: false, ctrl: true, alt: false, logo: false });
}

#[test]
fn raw_input_checks() {
    assert!(raw_input_accepted(48, 48, 0));
    assert!(!raw_input_accepted(u32::MAX, u32::MAX, 0));
    assert!(!raw_input_accepted(40, 48, 0));
    assert!(!raw_input_accepted(48, 48, 1));
}

#[test]
fn resize_edges() {
    assert_eq!(resize_edge(1, 1, 100, 100, 8), Some(HTTOPLEFT));
    assert_eq!(resize_edge(99, 99, 100, 100, 8), Some(HTBOTTOMRIGHT));
    assert_eq!(resize_edge(2, 50, 100, 100, 8), Some(HTLEFT));
    assert_eq!(resize_edge(50, 95, 100, 100, 8), Some(HTBOTTOM));
    assert_eq!(resize_edge(50, 50, 100, 100, 8), None);
}

#[test]
fn caption_hits() {
    let buttons = [Rect::new(90, 0, 10, 10)];
    assert_eq!(caption_hit(10, 5, 30, &buttons), HTCAPTION);
    assert_eq!(caption_hit(95, 5, 30, &buttons), HTCLIENT as isize);
    assert_eq!(caption_hit(10, 30, 30, &buttons), HTCLIENT as isize);
    assert_eq!(caption_hit(10, 5, 30, &[]), HTCAPTION);
}

#[test]
fn maximized_inset() {
    let r = inset_for_maximized(RECT { left: -8, top: -8, right: 1928, bottom: 1088 }, 4, 4, 4);
    assert_eq!(r, RECT { left: 0, top: 0, right: 1920, bottom: 1080 });
}

#[test]
fn caption_changes() {
    assert_eq!(caption_change(30, 30), (false, false));
    assert_eq!(caption_change(30, 0), (true, true));
    assert_eq!(caption_change(0, 30), (true, false));
}

#[test]
fn present_plans() {
    let area = Rect::new(0, 0, 4, 4);
    assert_eq!(present_plan(true, area, area, 16), PresentPlan::SwapBuffers);
    assert_eq!(present_plan(false, Rect::new(0, 0, 0, 4), area, 16), PresentPlan::Skip);
    assert_eq!(present_plan(false, area, area, 0), PresentPlan::Skip);
    assert_eq!(present_plan(false, area, area, 16), PresentPlan::Stretch);
}

#[test]
fn damage_plans() {
    let area = Rect::new(0, 0, 10, 8);
    assert_eq!(damage_plan(false, area, area, 80, &[]), DamagePlan::Whole(PresentPlan::Stretch));
    assert_eq!(
        damage_plan(true, area, area, 80, &[area]),
        DamagePlan::Whole(PresentPlan::SwapBuffers)
    );
    assert_eq!(damage_plan(false, area, area, 0, &[area]), DamagePlan::Skip);
    assert_eq!(
        damage_plan(false, Rect::new(0, 0, 20, 16), area, 80, &[area]),
        DamagePlan::Whole(PresentPlan::Stretch)
    );
    let damage = [Rect::new(-2, 2, 5, 3), Rect::new(20, 20, 5, 5), Rect::new(8, 6, 10, 10)];
    assert_eq!(
        damage_plan(false, area, area, 80, &damage),
        DamagePlan::Strips(vec![
            DamageStrip { rect: Rect::new(0, 2, 3, 3), offset: 20 },
            DamageStrip { rect: Rect::new(8, 6, 2, 2), offset: 60 },
        ])
    );
}

#[test]
fn tray_click_shape_is_answered() {
    // Any message left over whose lparam low word is WM_LBUTTONDOWN is answered
    // with 0, including a hit test without a custom title bar at x = 513.
    assert_eq!(classify_message(0x8000 + 1, 0, 0x201, 0), WindowMessage::TrayClick);
    assert_eq!(classify_message(WM_NCHITTEST, 0, 0x0040_0201, 0), WindowMessage::TrayClick);
    assert_eq!(classify_message(WM_SETCURSOR, 0, 0x201, 0), WindowMessage::TrayClick);
    assert_eq!(classify_message(WM_NCCALCSIZE, 0, 0x201, 30), WindowMessage::TrayClick);
    // Messages taken by their own rule keep it.
    assert_eq!(classify_message(WM_NCHITTEST, 0, 0x201, 30), WindowMessage::NcHitTest);
    assert_eq!(classify_message(WM_XBUTTONDOWN, 0x0003_0000, 0x201, 0), WindowMessage::Unhandled);
    assert_eq!(classify_message(WM_CLOSE, 0, 0x201, 0), WindowMessage::Close);
    assert_eq!(classify_message(0x8001, 0, 0x202, 0), WindowMessage::Unhandled);
}

#[test]
fn frame_pump_decisions() {
    assert_eq!(pump_step(PumpEvent::Taken(WM_QUIT)), PumpAction::CloseAndStop);
    assert_eq!(pump_step(PumpEvent::Taken(WM_CLOSE)), PumpAction::Dispatch);
    assert_eq!(pump_step(PumpEvent::Dispatched { open: true }), PumpAction::NextMessage);
    assert_eq!(pump_step(PumpEvent::Dispatched { open: false }), PumpAction::Stop);
    assert_eq!(pump_step(PumpEvent::Drained { open: true, repainted: false }), PumpAction::Render);
    assert_eq!(pump_step(PumpEvent::Drained { open: true, repainted: true }), PumpAction::Stop);
    assert_eq!(pump_step(PumpEvent::Drained { open: false, repainted: false }), PumpAction::Stop);
}
