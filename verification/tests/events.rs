use rliv::events::Button;
use rliv::events::Event;
use rliv::events::Key;
use rliv::events::MouseButton;
use rliv::events::Outcome;
use rliv::events::PointerButtons;
use rliv::events::ScrollUnit;
use rliv::events::ZoomChange;
use rliv::events::PIXELS_PER_LINE;
use rliv::panels::Panel;
use rliv::panels::PanelFlags;
use rliv::settings::ImageSettings;
use rliv::ui::WindowData;
use rliv::viewport::ImageAsset;

const ZOOM_STEP: f32 = 1.2;

fn fresh() -> WindowData {
    WindowData::new(ImageAsset::new(640, 480).unwrap())
}

fn zoomed(zoom: f32, change: ZoomChange, delta: f32) -> f32 {
    match change {
        ZoomChange::Keep => zoom,
        ZoomChange::In => zoom * ZOOM_STEP,
        ZoomChange::Out => zoom / ZOOM_STEP,
        ZoomChange::Scroll { divisor } => {
            let lines = delta / divisor as f32;
            zoom * (1.0 + (lines * ImageSettings::ZOOM_MULTIPLIER as f32 / 100.0))
        }
    }
}

const QUIET: Outcome = Outcome { exit: false, redraw: false, draw: false, zoom: ZoomChange::Keep };
const REDRAW: Outcome = Outcome { exit: false, redraw: true, draw: false, zoom: ZoomChange::Keep };
const EXIT: Outcome = Outcome { exit: true, redraw: false, draw: false, zoom: ZoomChange::Keep };

#[test]
fn close_request_ends_the_session() {
    let mut data = fresh();
    assert_eq!(data.handle_event(Event::CloseRequested), EXIT);
    assert_eq!(data, fresh());
}

#[test]
fn escape_ends_the_session_either_way() {
    let mut data = fresh();
    assert_eq!(data.handle_event(Event::KeyboardInput { key: Key::Escape, pressed: true }), EXIT);
    assert_eq!(data.handle_event(Event::KeyboardInput { key: Key::Escape, pressed: false }), EXIT);
    assert_eq!(data, fresh());
}

#[test]
fn toggle_keys_work_on_press_only() {
    for (key, panel) in [
        (Key::F2, Panel::Debug),
        (Key::Home, Panel::Example),
        (Key::Space, Panel::ActionBar),
    ] {
        let mut data = fresh();
        let before = data.panels.is_shown(panel);
        assert_eq!(data.handle_event(Event::KeyboardInput { key, pressed: false }), REDRAW);
        assert_eq!(data, fresh());
        assert_eq!(data.handle_event(Event::KeyboardInput { key, pressed: true }), REDRAW);
        assert_eq!(data.panels.is_shown(panel), !before);
        let mut expected = PanelFlags::new();
        expected.toggle(panel);
        assert_eq!(data.panels, expected);
        assert_eq!(data.handle_event(Event::KeyboardInput { key, pressed: true }), REDRAW);
        assert_eq!(data, fresh());
    }
}

#[test]
fn other_keys_only_ask_for_a_redraw() {
    let mut data = fresh();
    assert_eq!(data.handle_event(Event::KeyboardInput { key: Key::Other, pressed: true }), REDRAW);
    assert_eq!(data.handle_event(Event::KeyboardInput { key: Key::Other, pressed: false }), REDRAW);
    assert_eq!(data, fresh());
}

#[test]
fn pointer_buttons_have_a_channel_each() {
    let mut data = fresh();
    assert_eq!(
        data.handle_event(Event::MouseInput { button: MouseButton::Left, pressed: true }),
        REDRAW
    );
    assert_eq!(data.pointer, PointerButtons { left: true, right: false, middle: false });
    data.handle_event(Event::MouseInput { button: MouseButton::Middle, pressed: true });
    assert_eq!(data.pointer, PointerButtons { left: true, right: false, middle: true });
    data.handle_event(Event::MouseInput { button: MouseButton::Right, pressed: true });
    assert_eq!(data.pointer, PointerButtons { left: true, right: true, middle: true });
    data.handle_event(Event::MouseInput { button: MouseButton::Left, pressed: false });
    assert_eq!(data.pointer, PointerButtons { left: false, right: true, middle: true });
    assert_eq!(
        data.handle_event(Event::MouseInput { button: MouseButton::Other, pressed: true }),
        REDRAW
    );
    assert_eq!(data.pointer, PointerButtons { left: false, right: true, middle: true });
    assert_eq!(data.panels, PanelFlags::new());
}

#[test]
fn pointer_buttons_start_released() {
    assert_eq!(PointerButtons::new(), PointerButtons { left: false, right: false, middle: false });
    let mut buttons = PointerButtons::new();
    buttons.set(MouseButton::Right, true);
    assert_eq!(buttons, PointerButtons { left: false, right: true, middle: false });
    buttons.set(MouseButton::Other, true);
    assert_eq!(buttons, PointerButtons { left: false, right: true, middle: false });
}

#[test]
fn window_events_ask_for_a_redraw() {
    for event in [Event::CursorMoved, Event::Resized, Event::OtherWindowEvent] {
        let mut data = fresh();
        assert_eq!(data.handle_event(event), REDRAW);
        assert_eq!(data, fresh());
    }
}

#[test]
fn redraw_request_draws_and_asks_for_nothing() {
    let mut data = fresh();
    assert_eq!(
        data.handle_event(Event::RedrawRequested),
        Outcome { exit: false, redraw: false, draw: true, zoom: ZoomChange::Keep }
    );
    assert_eq!(data.handle_event(Event::Other), QUIET);
    assert_eq!(data, fresh());
}

#[test]
fn scroll_is_normalised_by_its_unit() {
    let mut data = fresh();
    assert_eq!(
        data.handle_event(Event::MouseWheel { unit: ScrollUnit::Line }),
        Outcome { exit: false, redraw: true, draw: false, zoom: ZoomChange::Scroll { divisor: 1 } }
    );
    assert_eq!(
        data.handle_event(Event::MouseWheel { unit: ScrollUnit::Pixel }),
        Outcome { exit: false, redraw: true, draw: false, zoom: ZoomChange::Scroll { divisor: 13 } }
    );
    assert_eq!(PIXELS_PER_LINE, 13);
    assert_eq!(data, fresh());
}

#[test]
fn scroll_changes_zoom_by_ten_percent_a_line() {
    assert_eq!(ImageSettings::ZOOM_MULTIPLIER, 10);
    let line = ZoomChange::Scroll { divisor: 1 };
    let pixel = ZoomChange::Scroll { divisor: PIXELS_PER_LINE };
    assert_eq!(zoomed(1.0, line, 1.0), 1.1);
    assert_eq!(zoomed(2.0, line, -1.0), 1.8);
    assert_eq!(zoomed(1.0, pixel, 26.0), 1.2);
    assert_eq!(zoomed(1.0, pixel, 13.0), zoomed(1.0, line, 1.0));
    assert_eq!(zoomed(1.0, line, 0.0), 1.0);
    assert_eq!(zoomed(1.0, line, -10.0), 0.0);
    assert!(zoomed(1.0, line, -11.0) < 0.0);
}

#[test]
fn action_bar_buttons_zoom_and_toggle() {
    let mut data = fresh();
    assert_eq!(
        data.handle_event(Event::ButtonPressed(Button::ZoomIn)),
        Outcome { exit: false, redraw: false, draw: false, zoom: ZoomChange::In }
    );
    assert_eq!(
        data.handle_event(Event::ButtonPressed(Button::ZoomOut)),
        Outcome { exit: false, redraw: false, draw: false, zoom: ZoomChange::Out }
    );
    assert_eq!(data, fresh());
    assert_eq!(data.handle_event(Event::ButtonPressed(Button::Debug)), QUIET);
    assert!(data.panels.is_shown(Panel::Debug));
    assert_eq!(data.handle_event(Event::ButtonPressed(Button::Metadata)), QUIET);
    assert!(data.panels.is_shown(Panel::Metadata));
    assert_eq!(
        data.panels,
        PanelFlags { debug: true, example: false, metadata: true, action_bar: true }
    );
    data.handle_event(Event::ButtonPressed(Button::Metadata));
    data.handle_event(Event::ButtonPressed(Button::Debug));
    assert_eq!(data, fresh());
}

#[test]
fn five_zoom_in_presses_from_one() {
    let mut data = fresh();
    let mut zoom = 1.0f32;
    for _ in 0..5 {
        let outcome = data.handle_event(Event::ButtonPressed(Button::ZoomIn));
        assert_eq!(outcome.zoom, ZoomChange::In);
        zoom = zoomed(zoom, outcome.zoom, 0.0);
    }
    assert!((zoom - 2.48832).abs() < 1e-5);
    assert!((zoom - 2.488).abs() < 1e-3);
    for _ in 0..5 {
        let outcome = data.handle_event(Event::ButtonPressed(Button::ZoomOut));
        assert_eq!(outcome.zoom, ZoomChange::Out);
        zoom = zoomed(zoom, outcome.zoom, 0.0);
    }
    assert!((zoom - 1.0).abs() < 1e-5);
}
