//! The state of one viewer window and what happens to it: how it starts, how
//! each event changes it, and what a frame is drawn from.

use vstd::prelude::*;
use vstd::string::StringExecFns;
use crate::events::Button;
use crate::events::Event;
use crate::events::Key;
use crate::events::MouseButton;
use crate::events::Outcome;
use crate::events::PointerButtons;
use crate::events::ScrollUnit;
use crate::events::ZoomChange;
use crate::events::PIXELS_PER_LINE;
use crate::panels::Panel;
use crate::panels::PanelFlags;
use crate::settings::WindowSettings;
use crate::shaders::get_shader;
use crate::shaders::ShaderTier;
use crate::shaders::Version;
use crate::viewport::compute_transform;
use crate::viewport::ImageAsset;
use crate::viewport::Scale;
use crate::viewport::Transform;

verus! {

/// The width, in pixels, of a window that shows no image yet.
pub const DEFAULT_WIDTH: u32 = 800;

/// The height, in pixels, of a window that shows no image yet.
pub const DEFAULT_HEIGHT: u32 = 600;

/// The bytes in what the debug panel calls one megabyte.
pub const BYTES_PER_MEGABYTE: usize = 1_000_000;

/// What a window has of state besides the zoom factor, which the window layer
/// keeps and changes as each `Outcome` says.
#[derive(Clone, Copy, Debug, PartialEq, Eq)]
pub struct WindowData {
    /// The image on show.
    pub image: ImageAsset,
    /// The fit of the image into the window, as of the last frame.
    pub uniform: Transform,
    /// Which overlay panels are shown.
    pub panels: PanelFlags,
    /// Which pointer buttons are down.
    pub pointer: PointerButtons,
}

/// What a frame is drawn from.
#[derive(Debug, PartialEq, Eq)]
pub struct Frame {
    /// The fit of the image into the window.
    pub uniform: Transform,
    /// The source of the vertex shader.
    pub vertex_shader: String,
    /// The source of the fragment shader.
    pub fragment_shader: String,
}

/// A session from its first event to its last.
#[derive(Debug, PartialEq, Eq)]
pub struct Session {
    /// The title of the window.
    pub title: String,
    /// The state in which the session ended.
    pub data: WindowData,
    /// What each handled event asked for, in order.
    pub outcomes: Vec<Outcome>,
}

/// The title of a window that shows the file of the given name: the
/// program's title alone before the dash where there is no name.
pub open spec fn title_text(name: Option<Seq<char>>) -> Seq<char> {
    WindowSettings::WINDOW_TITLE@ + " - "@ + (match name {
        Some(n) => n,
        None => Seq::empty(),
    })
}

/// `events` is handled up to its `count`-th event and no further: no event
/// before the last handled one ends the session, and where unhandled events
/// are left, the last handled one did.
pub open spec fn handled_until(events: Seq<Event>, count: int) -> bool {
    &&& 0 <= count <= events.len()
    &&& forall|i: int| 0 <= i < count - 1 ==> !(#[trigger] events[i]).closes()
    &&& count < events.len() ==> count > 0 && events[count - 1].closes()
}

impl WindowData {
    /// The state of a window that has just been opened on `image`.
    pub open spec fn at_start(image: ImageAsset) -> WindowData {
        WindowData {
            image,
            uniform: Transform {
                scale_x: Scale { pixels: 1, extent: 1 },
                scale_y: Scale { pixels: 1, extent: 1 },
            },
            panels: PanelFlags::at_start(),
            pointer: PointerButtons { left: false, right: false, middle: false },
        }
    }

    /// The state after one event: the panel that the event toggles is
    /// toggled, a pointer button is recorded, all else stays.
    pub open spec fn after(self, event: Event) -> WindowData {
        WindowData {
            panels: match event.toggles() {
                Some(panel) => self.panels.toggled(panel),
                None => self.panels,
            },
            pointer: self.pointer.after(event),
            ..self
        }
    }

    /// The state after each of `events` in turn.
    pub open spec fn after_all(self, events: Seq<Event>) -> WindowData
        decreases events.len(),
    {
        if events.len() == 0 {
            self
        } else {
            self.after_all(events.drop_last()).after(events.last())
        }
    }

    /// A window that has just been opened on `image`.
    pub fn new(image: ImageAsset) -> (data: WindowData)
        ensures
            data == WindowData::at_start(image),
    {
        WindowData {
            image,
            uniform: Transform {
                scale_x: Scale { pixels: 1, extent: 1 },
                scale_y: Scale { pixels: 1, extent: 1 },
            },
            panels: PanelFlags::new(),
            pointer: PointerButtons::new(),
        }
    }

    /// Fits the image into a window of `window_width` by `window_height`
    /// pixels.
    pub fn calculate_uniform(&self, window_width: u32, window_height: u32) -> (uniform: Transform)
        requires
            window_width > 0,
            window_height > 0,
        ensures
            uniform.fits(
                self.image.spec_width(),
                self.image.spec_height(),
                window_width as int,
                window_height as int,
            ),
    {
        compute_transform(self.image.width(), self.image.height(), window_width, window_height)
    }

    /// Prepares a frame for a window of `window_width` by `window_height`
    /// pixels on a context of the given version, and keeps the frame's fit.
    pub fn draw(&mut self, window_width: u32, window_height: u32, version: &Version) -> (frame:
        Frame)
        requires
            window_width > 0,
            window_height > 0,
        ensures
            frame.uniform.fits(
                old(self).image.spec_width(),
                old(self).image.spec_height(),
                window_width as int,
                window_height as int,
            ),
            frame.vertex_shader@ == ShaderTier::select(*version).vertex_text(),
            frame.fragment_shader@ == ShaderTier::select(*version).fragment_text(),
            *final(self) == (WindowData { uniform: frame.uniform, ..*old(self) }),
    {
        let uniform = self.calculate_uniform(window_width, window_height);
        let (vertex_shader, fragment_shader) = get_shader(version);
        self.uniform = uniform;
        Frame { uniform, vertex_shader, fragment_shader }
    }

    /// Takes one event: updates the state and says what the window layer
    /// has to do.
    pub fn handle_event(&mut self, event: Event) -> (outcome: Outcome)
        ensures
            *final(self) == old(self).after(event),
            outcome == event.outcome(),
    {
        match event {
            Event::CloseRequested | Event::KeyboardInput { key: Key::Escape, .. } => Outcome {
                exit: true,
                redraw: false,
                draw: false,
                zoom: ZoomChange::Keep,
            },
            Event::KeyboardInput { key, pressed } => {
                if pressed {
                    match key {
                        Key::F2 => {
                            self.panels.toggle(Panel::Debug);
                        },
                        Key::Home => {
                            self.panels.toggle(Panel::Example);
                        },
                        Key::Space => {
                            self.panels.toggle(Panel::ActionBar);
                        },
                        _ => {},
                    }
                }
                Outcome { exit: false, redraw: true, draw: false, zoom: ZoomChange::Keep }
            },
            Event::MouseInput { button, pressed } => {
                self.pointer.set(button, pressed);
                Outcome { exit: false, redraw: true, draw: false, zoom: ZoomChange::Keep }
            },
            Event::MouseWheel { unit } => {
                let divisor: u32 = match unit {
                    ScrollUnit::Line => 1,
                    ScrollUnit::Pixel => PIXELS_PER_LINE,
                };
                Outcome {
                    exit: false,
                    redraw: true,
                    draw: false,
                    zoom: ZoomChange::Scroll { divisor },
                }
            },
            Event::CursorMoved | Event::Resized | Event::OtherWindowEvent => Outcome {
                exit: false,
                redraw: true,
                draw: false,
                zoom: ZoomChange::Keep,
            },
            Event::ButtonPressed(button) => {
                let zoom = match button {
                    Button::ZoomOut => ZoomChange::Out,
                    Button::ZoomIn => ZoomChange::In,
                    Button::Debug => {
                        self.panels.toggle(Panel::Debug);
                        ZoomChange::Keep
                    },
                    Button::Metadata => {
                        self.panels.toggle(Panel::Metadata);
                        ZoomChange::Keep
                    },
                };
                Outcome { exit: false, redraw: false, draw: false, zoom }
            },
            Event::RedrawRequested => Outcome {
                exit: false,
                redraw: false,
                draw: true,
                zoom: ZoomChange::Keep,
            },
            Event::Other => Outcome {
                exit: false,
                redraw: false,
                draw: false,
                zoom: ZoomChange::Keep,
            },
        }
    }

    /// Takes events in order until one of them ends the session, and
    /// returns what each handled event asked for.
    pub fn window_loop(&mut self, events: &Vec<Event>) -> (outcomes: Vec<Outcome>)
        ensures
            handled_until(events@, outcomes@.len() as int),
            forall|i: int| 0 <= i < outcomes@.len() ==> outcomes@[i] == (#[trigger] events@[i]).outcome(),
            *final(self) == old(self).after_all(events@.take(outcomes@.len() as int)),
    {
        let mut outcomes: Vec<Outcome> = Vec::new();
        let mut i: usize = 0;
        proof {
            assert(events@.take(0) =~= Seq::<Event>::empty());
        }
        while i < events.len()
            invariant
                i <= events.len(),
                outcomes@.len() == i,
                forall|j: int| 0 <= j < i ==> !(#[trigger] events@[j]).closes(),
                forall|j: int| 0 <= j < i ==> outcomes@[j] == (#[trigger] events@[j]).outcome(),
                *self == old(self).after_all(events@.take(i as int)),
            decreases events.len() - i,
        {
            let event = events[i];
            let outcome = self.handle_event(event);
            outcomes.push(outcome);
            proof {
                let handled = events@.take(i + 1);
                assert(handled.drop_last() =~= events@.take(i as int));
                assert(handled.last() == event);
            }
            i += 1;
            if outcome.exit {
                return outcomes;
            }
        }
        proof {
            assert(events@.take(events@.len() as int) =~= events@);
        }
        outcomes
    }
}

/// The title of a window for the file name `name`.
pub fn title_for(name: Option<&str>) -> (title: String)
    ensures
        title@ == title_text(
            match name {
                Some(n) => Some(n@),
                None => None,
            },
        ),
{
    let mut title = WindowSettings::WINDOW_TITLE.to_string();
    title.append(" - ");
    match name {
        Some(n) => {
            title.append(n);
        },
        None => {
            assert(title@ + Seq::<char>::empty() =~= title@);
        },
    }
    title
}

/// The final component of a path, if it has one.
///
/// Calls `std::path::Path::file_name`. Nothing is claimed of the result:
/// what counts as a component depends on the platform.
#[verifier::external_body]
fn final_component(path: &str) -> (name: Option<String>) {
    match std::path::Path::new(path).file_name() {
        Some(name) => Some(name.to_string_lossy().into_owned()),
        None => None,
    }
}

/// The title of a window that shows the file at `filename`: the program's
/// title, a dash, and the file's name without its directories.
pub fn window_title(filename: &str) -> (title: String)
    ensures
        exists|name: Option<Seq<char>>| title@ == #[trigger] title_text(name),
{
    match final_component(filename) {
        Some(name) => {
            let title = title_for(Some(name.as_str()));
            assert(title@ == title_text(Some(name@)));
            title
        },
        None => {
            let title = title_for(None);
            assert(title@ == title_text(None));
            title
        },
    }
}

/// The megabytes of free video memory that the debug panel reports: none
/// where the driver does not tell.
pub fn free_video_megabytes(free_bytes: Option<usize>) -> (megabytes: usize)
    ensures
        megabytes == match free_bytes {
            Some(bytes) => bytes as int / BYTES_PER_MEGABYTE as int,
            None => 0,
        },
{
    match free_bytes {
        Some(bytes) => bytes / BYTES_PER_MEGABYTE,
        None => 0,
    }
}

/// Runs a whole session: opens a window on `image`, loaded from `filename`,
/// and takes `events` until one of them ends the session.
pub fn window(filename: &str, image: ImageAsset, events: &Vec<Event>) -> (session: Session)
    ensures
        exists|name: Option<Seq<char>>| session.title@ == #[trigger] title_text(name),
        handled_until(events@, session.outcomes@.len() as int),
        forall|i: int|
            0 <= i < session.outcomes@.len() ==> session.outcomes@[i] == (
            #[trigger] events@[i]).outcome(),
        session.data == WindowData::at_start(image).after_all(
            events@.take(session.outcomes@.len() as int),
        ),
{
    let title = window_title(filename);
    let mut data = WindowData::new(image);
    let outcomes = data.window_loop(events);
    Session { title, data, outcomes }
}

/// An event that toggles a panel, taken twice, leaves the state as it was.
pub proof fn lemma_toggle_event_twice(data: WindowData, event: Event)
    requires
        event.toggles() is Some,
    ensures
        data.after(event).after(event) == data,
{
}

/// An event that ends the session changes nothing and asks for nothing but
/// the end.
pub proof fn lemma_close_changes_nothing(data: WindowData, event: Event)
    requires
        event.closes(),
    ensures
        data.after(event) == data,
        event.outcome() == (Outcome {
            exit: true,
            redraw: false,
            draw: false,
            zoom: ZoomChange::Keep,
        }),
{
}

/// Every event of the window that does not end the session asks for a
/// redraw, whatever else it does; no other event does.
pub proof fn lemma_redraw_on_anything(event: Event)
    ensures
        event.outcome().redraw <==> event.of_window() && !event.closes(),
        event.outcome().exit ==> !event.outcome().redraw && !event.outcome().draw,
        event.outcome().draw ==> !event.outcome().redraw,
{
}

/// One handled prefix only: two counts up to which the same events are
/// handled are equal.
pub proof fn lemma_handled_once(events: Seq<Event>, count: int, other: int)
    requires
        handled_until(events, count),
        handled_until(events, other),
    ensures
        count == other,
{
    if count < other {
        assert(events[count - 1].closes());
    } else if other < count {
        assert(events[other - 1].closes());
    }
}

/// An event that ends the session is the last one handled: whatever
/// follows it is never looked at.
pub proof fn lemma_close_is_terminal(events: Seq<Event>, rest: Seq<Event>)
    requires
        events.len() > 0,
        events.last().closes(),
        handled_until(events, events.len() as int),
    ensures
        handled_until(events + rest, events.len() as int),
        (events + rest).take(events.len() as int) == events,
{
    let all = events + rest;
    assert forall|i: int| 0 <= i < events.len() - 1 implies !(#[trigger] all[i]).closes() by {
        assert(all[i] == events[i]);
    }
    assert(all[events.len() - 1] == events.last());
    assert(all.take(events.len() as int) =~= events);
}

} // verus!
