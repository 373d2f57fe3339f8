//! The paint book's decisions: which page is shown, and what each touch or
//! button press asks the platform to do.

use vstd::prelude::*;

use crate::geometry::{Rect, ScreenPoint, ScreenSize};

verus! {

/// Left edge of the folded corner that turns the page.
pub const PAGE_TURN_LEFT: i32 = 270;

/// Top edge of the folded corner that turns the page.
pub const PAGE_TURN_TOP: i32 = 0;

/// Width of the folded corner that turns the page.
pub const PAGE_TURN_WIDTH: u32 = 50;

/// Height of the folded corner that turns the page.
pub const PAGE_TURN_HEIGHT: u32 = 45;

/// Width of the brush that paints strokes, in pixels.
pub const BRUSH_WIDTH: u32 = 7;

/// The pages of the paint book.
#[derive(Clone, Copy, Debug, PartialEq, Eq, Structural)]
pub enum Page {
    CrabBeach,
    DogWalk,
    CaveArt,
}

impl Default for Page {
    fn default() -> (page: Self)
        ensures
            page == Page::CrabBeach,
    {
        Page::CrabBeach
    }
}

impl Page {
    /// The page that follows this one; after the last comes the first again.
    pub open spec fn following(self) -> Page {
        match self {
            Page::CrabBeach => Page::DogWalk,
            Page::DogWalk => Page::CaveArt,
            Page::CaveArt => Page::CrabBeach,
        }
    }

    /// The page that follows this one.
    pub fn next(self) -> (next: Self)
        ensures
            next == self.following(),
    {
        match self {
            Self::CrabBeach => Self::DogWalk,
            Self::DogWalk => Self::CaveArt,
            Self::CaveArt => Self::CrabBeach,
        }
    }
}

/// Turning the page three times comes back to the same page, and no single
/// turn stays on the same page.
pub proof fn pages_cycle(page: Page)
    ensures
        page.following().following().following() == page,
        page.following() != page,
{
}

/// Why the paint book stopped.
#[derive(Clone, Copy, Debug, PartialEq, Eq, Structural)]
pub enum Exit {
    /// The user pressed the button that asks for touch calibration.
    CalibrationRequested,
}

/// The folded corner of the page; a touch that begins there turns the page.
pub open spec fn page_turn_area() -> Rect {
    Rect {
        top_left: ScreenPoint { x: PAGE_TURN_LEFT, y: PAGE_TURN_TOP },
        size: ScreenSize { width: PAGE_TURN_WIDTH, height: PAGE_TURN_HEIGHT },
    }
}

/// The folded corner of the page.
pub fn page_turn_rectangle() -> (area: Rect)
    ensures
        area == page_turn_area(),
{
    Rect {
        top_left: ScreenPoint { x: PAGE_TURN_LEFT, y: PAGE_TURN_TOP },
        size: ScreenSize { width: PAGE_TURN_WIDTH, height: PAGE_TURN_HEIGHT },
    }
}

/// What the platform reports to the paint book on one pass of its loop.
#[derive(Clone, Copy, Debug, PartialEq, Eq, Structural)]
pub enum PaintInput {
    /// The calibration button is pressed (touch is then not read).
    CalibrationButton,
    /// No new touch event is waiting.
    NoTouch,
    /// A touch began at `point`.
    Down { point: ScreenPoint },
    /// The touch moved to `point`.
    Move { point: ScreenPoint },
    /// The touch ended.
    Up,
}

/// What the paint book asks the platform to do next.
#[derive(Clone, Copy, Debug, PartialEq, Eq, Structural)]
pub enum PaintAction {
    /// Stop the paint book and return `Exit`.
    Stop(Exit),
    /// Wait a short while without presenting the frame, then read again.
    Wait,
    /// Draw `page` over the frame, save it as the selected page, then present
    /// the frame.
    ShowPage(Page),
    /// Draw a line from `from` to `to` in the color of the pixel at `from`
    /// (nothing when `from` has no pixel), then present the frame.
    Stroke { from: ScreenPoint, to: ScreenPoint },
    /// Present the frame.
    Present,
}

/// The paint book: the page shown, and where the last touch was while a
/// stroke is under way.
#[derive(Clone, Copy, Debug, PartialEq, Eq)]
pub struct PaintBook {
    pub page: Page,
    pub previous_point: Option<ScreenPoint>,
}

/// How the paint book answers one input. The calibration button stops it; no
/// touch means wait; a touch that begins on the folded corner turns to the
/// next page and starts no stroke; a touch that begins elsewhere starts a
/// stroke; a move continues the stroke from the last point, if there is one;
/// lifting the finger ends the stroke.
pub open spec fn paint_step(book: PaintBook, input: PaintInput) -> (PaintBook, PaintAction) {
    match input {
        PaintInput::CalibrationButton => (book, PaintAction::Stop(Exit::CalibrationRequested)),
        PaintInput::NoTouch => (book, PaintAction::Wait),
        PaintInput::Down { point } => if page_turn_area().covers(point) {
            (
                PaintBook { page: book.page.following(), previous_point: None },
                PaintAction::ShowPage(book.page.following()),
            )
        } else {
            (PaintBook { previous_point: Some(point), ..book }, PaintAction::Present)
        },
        PaintInput::Move { point } => match book.previous_point {
            Some(from) => (
                PaintBook { previous_point: Some(point), ..book },
                PaintAction::Stroke { from, to: point },
            ),
            None => (book, PaintAction::Present),
        },
        PaintInput::Up => (PaintBook { previous_point: None, ..book }, PaintAction::Present),
    }
}

impl PaintBook {
    /// A paint book showing `page`, with no stroke under way.
    pub fn new(page: Page) -> (book: Self)
        ensures
            book == (PaintBook { page, previous_point: None }),
    {
        PaintBook { page, previous_point: None }
    }

    /// Answers one input; see `paint_step`.
    pub fn step(&mut self, input: PaintInput) -> (action: PaintAction)
        ensures
            (*final(self), action) == paint_step(*old(self), input),
    {
        match input {
            PaintInput::CalibrationButton => PaintAction::Stop(Exit::CalibrationRequested),
            PaintInput::NoTouch => PaintAction::Wait,
            PaintInput::Down { point } => {
                if page_turn_rectangle().contains(point) {
                    self.previous_point = None;
                    self.page = self.page.next();
                    PaintAction::ShowPage(self.page)
                } else {
                    self.previous_point = Some(point);
                    PaintAction::Present
                }
            },
            PaintInput::Move { point } => {
                match self.previous_point {
                    Some(from) => {
                        self.previous_point = Some(point);
                        PaintAction::Stroke { from, to: point }
                    },
                    None => PaintAction::Present,
                }
            },
            PaintInput::Up => {
                self.previous_point = None;
                PaintAction::Present
            },
        }
    }
}

/// The calibration button stops the paint book whatever its state; a turn of
/// the page never leaves a stroke under way; lifting the finger always ends
/// the stroke; and a stroke always starts where the previous touch was.
pub proof fn paint_book_answers(book: PaintBook, input: PaintInput)
    ensures
        input == PaintInput::CalibrationButton ==> paint_step(book, input) == (
            book,
            PaintAction::Stop(Exit::CalibrationRequested),
        ),
        paint_step(book, input).1 matches PaintAction::ShowPage(page) ==> {
            &&& page == book.page.following()
            &&& paint_step(book, input).0 == (PaintBook { page, previous_point: None })
        },
        input == PaintInput::Up ==> paint_step(book, input).0.previous_point is None,
        paint_step(book, input).1 matches PaintAction::Stroke { from, to } ==> {
            &&& book.previous_point == Some(from)
            &&& paint_step(book, input).0.previous_point == Some(to)
        },
{
}

/// Only a touch that begins on the folded corner turns the page, and it always
/// turns to the following page and shows it. Moving a finger never turns the
/// page: it continues the stroke from the last point when there is one and
/// otherwise only presents the frame.
pub proof fn only_touching_the_corner_turns_the_page(book: PaintBook, input: PaintInput)
    ensures
        paint_step(book, input).0.page != book.page <==> (input matches PaintInput::Down { point }
            && page_turn_area().covers(point)),
        paint_step(book, input).0.page == book.page || paint_step(book, input).0.page == book.page.following(),
        (paint_step(book, input).1 is ShowPage) <==> paint_step(book, input).0.page != book.page,
        paint_step(book, input).1 matches PaintAction::ShowPage(page) ==> page == paint_step(book, input).0.page,
        input matches PaintInput::Move { point } ==> {
            &&& paint_step(book, input).0.page == book.page
            &&& match book.previous_point {
                Some(from) => {
                    &&& paint_step(book, input).1 == (PaintAction::Stroke { from, to: point })
                    &&& paint_step(book, input).0.previous_point == Some(point)
                },
                None => {
                    &&& paint_step(book, input).1 == PaintAction::Present
                    &&& paint_step(book, input).0.previous_point is None
                },
            }
        },
        input == PaintInput::NoTouch ==> paint_step(book, input) == (book, PaintAction::Wait),
        input matches PaintInput::Down { point } ==> !page_turn_area().covers(point) ==> paint_step(book, input) == (
            PaintBook { page: book.page, previous_point: Some(point) },
            PaintAction::Present,
        ),
        input == PaintInput::Up ==> paint_step(book, input) == (
            PaintBook { page: book.page, previous_point: None },
            PaintAction::Present,
        ),
{
    pages_cycle(book.page);
}

/// The folded corner is the top-right 50 × 45 pixels of the 320-pixel-wide
/// screen.
pub proof fn page_corner_is_top_right(point: ScreenPoint)
    ensures
        page_turn_area().covers(point) <==> (270 <= point.x < 320 && 0 <= point.y < 45),
{
}

} // verus!
