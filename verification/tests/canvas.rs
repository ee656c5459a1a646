use iced_widgets::canvas::{self, Cache, Canvas, Cursor, Program};
use iced_widgets::event::{Event, Status};
use iced_widgets::keyboard;
use iced_widgets::layout::Limits;
use iced_widgets::mouse::{self, Interaction};
use iced_widgets::shell::Shell;
use iced_widgets::touch;
use iced_widgets::units::{Length, Point, Rectangle, Size};
use iced_widgets::window;
use std::cell::Cell;
use std::rc::Rc;

/// A program that counts how often it is asked to draw, and draws a
/// different stroke each time.
struct Counting {
    drawings: Rc<Cell<u32>>,
    updates: u32,
}

#[derive(Debug, Clone, PartialEq)]
struct Stroke {
    width: u32,
    height: u32,
    number: u32,
    cursor: Cursor,
}

#[derive(Debug, Clone, PartialEq)]
enum Message {
    Clicked(Point),
    Typed(char),
}

impl Program for Counting {
    type Message = Message;
    type Geometry = Stroke;

    fn draw(&self, bounds: Rectangle, cursor: Cursor) -> Vec<Stroke> {
        self.drawings.set(self.drawings.get() + 1);
        vec![Stroke {
            width: bounds.width,
            height: bounds.height,
            number: self.drawings.get(),
            cursor,
        }]
    }

    fn update(
        &mut self,
        event: canvas::Event,
        _bounds: Rectangle,
        cursor: Cursor,
    ) -> (Status, Option<Message>) {
        self.updates += 1;
        match event {
            canvas::Event::Mouse(mouse::Event::ButtonPressed(mouse::Button::Left)) => {
                match cursor.position() {
                    Some(position) => (Status::Captured, Some(Message::Clicked(position))),
                    None => (Status::Ignored, None),
                }
            }
            canvas::Event::Keyboard(keyboard::Event::CharacterReceived(c)) => {
                (Status::Captured, Some(Message::Typed(c)))
            }
            canvas::Event::Mouse(mouse::Event::CursorMoved { .. }) => (Status::Captured, None),
            _ => (Status::Ignored, None),
        }
    }

    fn mouse_interaction(&self, _bounds: Rectangle, cursor: Cursor) -> Interaction {
        match cursor {
            Cursor::Available(_) => Interaction::Crosshair,
            Cursor::Unavailable => Interaction::Idle,
        }
    }
}

/// A program that only draws.
struct Plain;

impl Program for Plain {
    type Message = ();
    type Geometry = u8;

    fn draw(&self, _bounds: Rectangle, _cursor: Cursor) -> Vec<u8> {
        vec![1, 2, 3]
    }
}

fn counting() -> (Canvas<Counting>, Rc<Cell<u32>>) {
    let drawings = Rc::new(Cell::new(0));
    let canvas = Canvas::new(Counting {
        drawings: drawings.clone(),
        updates: 0,
    });
    (canvas, drawings)
}

fn bounds(width: u32, height: u32) -> Rectangle {
    Rectangle::new(Point::new(30, 40), Size::new(width, height))
}

#[test]
fn drawing_twice_draws_once() {
    let (mut canvas, drawings) = counting();
    let at = Point::new(5, 6);
    let first = canvas.draw(bounds(200, 100), at).to_vec();
    assert_eq!(drawings.get(), 1);
    let second = canvas.draw(bounds(200, 100), at).to_vec();
    assert_eq!(drawings.get(), 1);
    assert_eq!(first, second);
    assert_eq!(
        first,
        vec![Stroke {
            width: 200,
            height: 100,
            number: 1,
            cursor: Cursor::Available(at),
        }]
    );
}

#[test]
fn invalidating_makes_the_next_drawing_new() {
    let (mut canvas, drawings) = counting();
    let at = Point::new(5, 6);
    let _ = canvas.draw(bounds(200, 100), at);
    canvas.invalidate();
    assert_eq!(drawings.get(), 1);
    let fresh = canvas.draw(bounds(200, 100), at).to_vec();
    assert_eq!(drawings.get(), 2);
    assert_eq!(fresh[0].number, 2);
    canvas.invalidate();
    canvas.invalidate();
    let _ = canvas.draw(bounds(200, 100), at);
    assert_eq!(drawings.get(), 3);
}

#[test]
fn kept_geometry_outlives_a_move_of_the_cursor_and_of_the_bounds() {
    let (mut canvas, drawings) = counting();
    let first = canvas.draw(bounds(200, 100), Point::new(5, 6)).to_vec();
    let moved = Rectangle::new(Point::new(0, 0), Size::new(200, 100));
    let second = canvas.draw(moved, Point::new(-1, -1)).to_vec();
    assert_eq!(drawings.get(), 1);
    assert_eq!(first, second);
}

#[test]
fn another_size_is_drawn_anew() {
    let (mut canvas, drawings) = counting();
    let at = Point::new(5, 6);
    let _ = canvas.draw(bounds(200, 100), at);
    let resized = canvas.draw(bounds(201, 100), at).to_vec();
    assert_eq!(drawings.get(), 2);
    assert_eq!(resized[0].width, 201);
    let back = canvas.draw(bounds(200, 100), at).to_vec();
    assert_eq!(drawings.get(), 3);
    assert_eq!(back[0].number, 3);
}

#[test]
fn bounds_too_small_draw_nothing() {
    let (mut canvas, drawings) = counting();
    let at = Point::new(5, 6);
    assert!(canvas.draw(bounds(0, 100), at).is_empty());
    assert!(canvas.draw(bounds(100, 0), at).is_empty());
    assert!(canvas.draw(bounds(0, 0), at).is_empty());
    assert_eq!(drawings.get(), 0);
    assert_eq!(canvas.draw(bounds(1, 1), at).len(), 1);
    assert_eq!(drawings.get(), 1);
}

#[test]
fn bounds_too_small_leave_the_kept_geometry_alone() {
    let (mut canvas, drawings) = counting();
    let at = Point::new(5, 6);
    let first = canvas.draw(bounds(200, 100), at).to_vec();
    assert!(canvas.draw(bounds(200, 0), at).is_empty());
    let again = canvas.draw(bounds(200, 100), at).to_vec();
    assert_eq!(drawings.get(), 1);
    assert_eq!(first, again);
}

#[test]
fn the_program_sees_no_cursor_outside_the_window() {
    let (mut canvas, _) = counting();
    let drawn = canvas.draw(bounds(10, 10), Point::new(-1, 4)).to_vec();
    assert_eq!(drawn[0].cursor, Cursor::Unavailable);
}

#[test]
fn cursor_from_window_position() {
    assert_eq!(
        Cursor::from_window_position(Point::new(0, 0)),
        Cursor::Available(Point::new(0, 0))
    );
    assert_eq!(
        Cursor::from_window_position(Point::new(7, 9)).position(),
        Some(Point::new(7, 9))
    );
    assert_eq!(
        Cursor::from_window_position(Point::new(-1, 9)),
        Cursor::Unavailable
    );
    assert_eq!(
        Cursor::from_window_position(Point::new(3, -2)).position(),
        None
    );
}

#[test]
fn a_mouse_event_reaches_the_program_and_its_message_is_published_once() {
    let (mut canvas, _) = counting();
    let mut shell = Shell::new();
    let status = canvas.on_event(
        Event::Mouse(mouse::Event::ButtonPressed(mouse::Button::Left)),
        bounds(200, 100),
        Point::new(31, 41),
        &mut shell,
    );
    assert_eq!(status, Status::Captured);
    assert_eq!(
        shell.into_messages(),
        vec![Message::Clicked(Point::new(31, 41))]
    );
}

#[test]
fn a_keyboard_event_reaches_the_program() {
    let (mut canvas, _) = counting();
    let mut shell = Shell::new();
    shell.publish(Message::Typed('a'));
    let status = canvas.on_event(
        Event::Keyboard(keyboard::Event::CharacterReceived('b')),
        bounds(200, 100),
        Point::new(31, 41),
        &mut shell,
    );
    assert_eq!(status, Status::Captured);
    assert_eq!(
        shell.into_messages(),
        vec![Message::Typed('a'), Message::Typed('b')]
    );
}

#[test]
fn an_event_without_a_message_publishes_nothing() {
    let (mut canvas, _) = counting();
    let mut shell = Shell::new();
    let captured = canvas.on_event(
        Event::Mouse(mouse::Event::CursorMoved {
            position: Point::new(1, 1),
        }),
        bounds(200, 100),
        Point::new(1, 1),
        &mut shell,
    );
    let ignored = canvas.on_event(
        Event::Keyboard(keyboard::Event::KeyPressed { key_code: 13 }),
        bounds(200, 100),
        Point::new(1, 1),
        &mut shell,
    );
    assert_eq!(captured, Status::Captured);
    assert_eq!(ignored, Status::Ignored);
    assert!(shell.into_messages().is_empty());
}

#[test]
fn other_events_are_ignored_and_never_reach_the_program() {
    struct Loud;
    impl Program for Loud {
        type Message = &'static str;
        type Geometry = ();
        fn draw(&self, _bounds: Rectangle, _cursor: Cursor) -> Vec<()> {
            Vec::new()
        }
        fn update(
            &mut self,
            _event: canvas::Event,
            _bounds: Rectangle,
            _cursor: Cursor,
        ) -> (Status, Option<&'static str>) {
            (Status::Captured, Some("heard"))
        }
    }
    let mut canvas = Canvas::new(Loud);
    let mut shell = Shell::new();
    let at = Point::new(1, 1);
    let window = canvas.on_event(
        Event::Window(window::Event::Resized {
            width: 640,
            height: 480,
        }),
        bounds(200, 100),
        at,
        &mut shell,
    );
    let touch = canvas.on_event(
        Event::Touch(touch::Event::FingerPressed {
            id: 1,
            position: at,
        }),
        bounds(200, 100),
        at,
        &mut shell,
    );
    assert_eq!(window, Status::Ignored);
    assert_eq!(touch, Status::Ignored);
    let mouse = canvas.on_event(
        Event::Mouse(mouse::Event::CursorEntered),
        bounds(200, 100),
        at,
        &mut shell,
    );
    assert_eq!(mouse, Status::Captured);
    assert_eq!(shell.into_messages(), vec!["heard"]);
}

#[test]
fn an_event_does_not_invalidate_the_geometry() {
    let (mut canvas, drawings) = counting();
    let at = Point::new(5, 6);
    let mut shell = Shell::new();
    let _ = canvas.draw(bounds(200, 100), at);
    let _ = canvas.on_event(
        Event::Mouse(mouse::Event::ButtonPressed(mouse::Button::Left)),
        bounds(200, 100),
        at,
        &mut shell,
    );
    let _ = canvas.draw(bounds(200, 100), at);
    assert_eq!(drawings.get(), 1);
}

#[test]
fn a_program_that_only_draws_ignores_events_and_hints_nothing() {
    let mut canvas = Canvas::new(Plain);
    let mut shell = Shell::new();
    let status = canvas.on_event(
        Event::Mouse(mouse::Event::ButtonPressed(mouse::Button::Right)),
        bounds(200, 100),
        Point::new(1, 1),
        &mut shell,
    );
    assert_eq!(status, Status::Ignored);
    assert!(shell.into_messages().is_empty());
    assert_eq!(
        canvas.mouse_interaction(bounds(200, 100), Point::new(1, 1)),
        Interaction::Idle
    );
    assert_eq!(Interaction::default(), Interaction::Idle);
    assert_eq!(canvas.draw(bounds(2, 2), Point::new(1, 1)), &[1, 2, 3]);
}

#[test]
fn mouse_interaction_asks_the_program() {
    let (canvas, _) = counting();
    assert_eq!(
        canvas.mouse_interaction(bounds(200, 100), Point::new(1, 1)),
        Interaction::Crosshair
    );
    assert_eq!(
        canvas.mouse_interaction(bounds(200, 100), Point::new(-1, 1)),
        Interaction::Idle
    );
}

#[test]
fn forward_publishes_the_message_and_returns_the_status() {
    let mut shell = Shell::new();
    assert_eq!(
        canvas::forward((Status::Captured, Some(1)), &mut shell),
        Status::Captured
    );
    assert_eq!(
        canvas::forward((Status::Ignored, Some(2)), &mut shell),
        Status::Ignored
    );
    assert_eq!(
        canvas::forward((Status::Captured, None), &mut shell),
        Status::Captured
    );
    assert_eq!(shell.into_messages(), vec![1, 2]);
}

#[test]
fn canvas_events_are_those_of_mouse_and_keyboard() {
    assert_eq!(
        canvas::Event::from_native(Event::Mouse(mouse::Event::CursorLeft)),
        Some(canvas::Event::Mouse(mouse::Event::CursorLeft))
    );
    assert_eq!(
        canvas::Event::from_native(Event::Keyboard(keyboard::Event::KeyReleased {
            key_code: 4
        })),
        Some(canvas::Event::Keyboard(keyboard::Event::KeyReleased {
            key_code: 4
        }))
    );
    assert_eq!(
        canvas::Event::from_native(Event::Window(window::Event::Focused)),
        None
    );
    assert_eq!(
        canvas::Event::from_native(Event::Touch(touch::Event::FingerLost {
            id: 0,
            position: Point::new(0, 0)
        })),
        None
    );
}

#[test]
fn a_new_canvas_takes_the_default_size() {
    let canvas = Canvas::new(Plain);
    let limits = Limits::new(Size::new(0, 0), Size::new(800, 600));
    assert_eq!(canvas::DEFAULT_SIZE, 100);
    assert_eq!(canvas.layout(&limits), Size::new(100, 100));
}

#[test]
fn a_fixed_length_is_brought_into_the_limits() {
    let canvas = Canvas::new(Plain)
        .width(Length::Units(900))
        .height(Length::Units(20));
    let limits = Limits::new(Size::new(50, 50), Size::new(800, 600));
    assert_eq!(canvas.layout(&limits), Size::new(800, 50));
}

#[test]
fn a_filling_length_takes_all_there_is() {
    let canvas = Canvas::new(Plain)
        .width(Length::Fill)
        .height(Length::FillPortion(2));
    let limits = Limits::new(Size::new(10, 10), Size::new(800, 600));
    assert_eq!(canvas.layout(&limits), Size::new(800, 600));
}

#[test]
fn a_shrinking_length_takes_the_least_allowed() {
    let canvas = Canvas::new(Plain)
        .width(Length::Shrink)
        .height(Length::Units(30));
    let limits = Limits::new(Size::new(10, 10), Size::new(800, 600));
    assert_eq!(canvas.layout(&limits), Size::new(10, 30));
}

#[test]
fn the_last_length_set_counts() {
    let canvas = Canvas::new(Plain)
        .width(Length::Fill)
        .width(Length::Units(7))
        .height(Length::Units(7))
        .height(Length::Fill);
    let limits = Limits::new(Size::new(0, 0), Size::new(800, 600));
    assert_eq!(canvas.layout(&limits), Size::new(7, 600));
}

#[test]
fn limits_resolve_an_intrinsic_size() {
    let limits = Limits::new(Size::new(10, 10), Size::new(800, 600));
    assert_eq!(
        limits,
        Limits {
            min: Size::new(10, 10),
            max: Size::new(800, 600),
            fill: Size::new(u32::MAX, u32::MAX),
        }
    );
    let shrunk = limits.width(Length::Shrink).height(Length::Shrink);
    assert_eq!(shrunk.fill, Size::new(10, 10));
    assert_eq!(shrunk.resolve(Size::new(300, 5)), Size::new(300, 10));
    assert_eq!(shrunk.resolve(Size::new(900, 700)), Size::new(800, 600));
    let fixed = limits.width(Length::Units(40)).height(Length::Units(5));
    assert_eq!(fixed.min, Size::new(40, 10));
    assert_eq!(fixed.max, Size::new(40, 10));
    assert_eq!(fixed.resolve(Size::new(300, 300)), Size::new(40, 10));
    let filled = limits.width(Length::Fill).height(Length::FillPortion(3));
    assert_eq!(filled.fill, Size::new(800, 600));
    assert_eq!(filled.resolve(Size::new(0, 0)), Size::new(800, 600));
}

#[test]
fn a_cache_keeps_geometry_for_one_size() {
    let mut cache = Cache::new();
    assert_eq!(cache.lookup(Size::new(4, 4)), None);
    cache.store(Size::new(4, 4), vec!['a', 'b']);
    assert_eq!(cache.lookup(Size::new(4, 4)), Some(&['a', 'b'][..]));
    assert_eq!(cache.lookup(Size::new(4, 5)), None);
    cache.store(Size::new(4, 5), vec!['c']);
    assert_eq!(cache.lookup(Size::new(4, 4)), None);
    assert_eq!(cache.lookup(Size::new(4, 5)), Some(&['c'][..]));
    cache.clear();
    assert_eq!(cache.lookup(Size::new(4, 5)), None);
}

#[test]
fn a_rectangle_knows_its_size() {
    let rectangle = Rectangle::new(Point::new(-3, 8), Size::new(20, 10));
    assert_eq!(
        rectangle,
        Rectangle {
            x: -3,
            y: 8,
            width: 20,
            height: 10
        }
    );
    assert_eq!(rectangle.size(), Size::new(20, 10));
}
