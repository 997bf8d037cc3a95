//! The tray icon: its picture, the ids of its menu items, and double
//! clicks on it.

use vstd::prelude::*;

verus! {

/// Id of the menu item that opens the settings.
pub const MENU_SETTINGS: &'static str = "settings";

/// Id of the menu item that ends the application.
pub const MENU_EXIT: &'static str = "exit";

/// Width and height of the icon, in pixels.
pub const ICON_SIZE: usize = 32;

/// Time within which a second click makes a double click, in milliseconds.
pub const DOUBLE_CLICK_MILLIS: u64 = 400;

/// Whether the pixel in column `x` of row `y` lies in the disc of the
/// icon: within 14 pixels of the centre.
pub open spec fn in_disc(x: int, y: int) -> bool {
    (x - 16) * (x - 16) + (y - 16) * (y - 16) <= 196
}

/// Whether the pixel in column `x` of row `y` belongs to the letter F: its
/// stem, its top bar or its middle bar.
pub open spec fn in_letter(x: int, y: int) -> bool {
    ||| (10 <= x <= 13 && 8 <= y <= 24)
    ||| (10 <= x <= 22 && 8 <= y <= 11)
    ||| (10 <= x <= 19 && 14 <= y <= 17)
}

/// Red, green, blue and alpha of the pixel in column `x` of row `y`: a
/// black F on a bright green disc, transparent around it.
pub open spec fn icon_pixel(x: int, y: int) -> (u8, u8, u8, u8) {
    if !in_disc(x, y) {
        (0u8, 0u8, 0u8, 0u8)
    } else if in_letter(x, y) {
        (0u8, 0u8, 0u8, 255u8)
    } else {
        (57u8, 255u8, 20u8, 255u8)
    }
}

/// Whether `rgba` holds the rows `0..rows` of the icon, four bytes to the
/// pixel.
pub open spec fn holds_icon_rows(rgba: Seq<u8>, rows: int) -> bool {
    forall|x: int, y: int|
        #![trigger icon_pixel(x, y)]
        0 <= x < ICON_SIZE && 0 <= y < rows ==> {
            let at = (y * ICON_SIZE + x) * 4;
            &&& rgba[at] == icon_pixel(x, y).0
            &&& rgba[at + 1] == icon_pixel(x, y).1
            &&& rgba[at + 2] == icon_pixel(x, y).2
            &&& rgba[at + 3] == icon_pixel(x, y).3
        }
}

/// Draws the icon: `ICON_SIZE` rows of `ICON_SIZE` pixels, four bytes to
/// the pixel.
pub fn green_icon_rgba() -> (rgba: Vec<u8>)
    ensures
        rgba@.len() == ICON_SIZE * ICON_SIZE * 4,
        holds_icon_rows(rgba@, ICON_SIZE as int),
{
    let mut rgba: Vec<u8> = Vec::new();
    let mut y: usize = 0;
    while y < ICON_SIZE
        invariant
            y <= ICON_SIZE,
            rgba@.len() == y * ICON_SIZE * 4,
            holds_icon_rows(rgba@, y as int),
        decreases ICON_SIZE - y,
    {
        let mut x: usize = 0;
        while x < ICON_SIZE
            invariant
                y < ICON_SIZE,
                x <= ICON_SIZE,
                rgba@.len() == (y * ICON_SIZE + x) * 4,
                holds_icon_rows(rgba@, y as int),
                forall|c: int|
                    #![trigger icon_pixel(c, y as int)]
                    0 <= c < x ==> {
                        let at = (y * ICON_SIZE + c) * 4;
                        &&& rgba@[at] == icon_pixel(c, y as int).0
                        &&& rgba@[at + 1] == icon_pixel(c, y as int).1
                        &&& rgba@[at + 2] == icon_pixel(c, y as int).2
                        &&& rgba@[at + 3] == icon_pixel(c, y as int).3
                    },
            decreases ICON_SIZE - x,
        {
            let dx: i64 = x as i64 - 16;
            let dy: i64 = y as i64 - 16;
            proof {
                assert(0 <= dx * dx <= 256) by (nonlinear_arith)
                    requires
                        -16 <= dx <= 16,
                ;
                assert(0 <= dy * dy <= 256) by (nonlinear_arith)
                    requires
                        -16 <= dy <= 16,
                ;
            }
            let inside: bool = dx * dx + dy * dy <= 196;
            let letter: bool = (10 <= x && x <= 13 && 8 <= y && y <= 24) || (10 <= x && x <= 22
                && 8 <= y && y <= 11) || (10 <= x && x <= 19 && 14 <= y && y <= 17);
            let ghost before = rgba@;
            if !inside {
                rgba.push(0);
                rgba.push(0);
                rgba.push(0);
                rgba.push(0);
            } else if letter {
                rgba.push(0);
                rgba.push(0);
                rgba.push(0);
                rgba.push(255);
            } else {
                rgba.push(57);
                rgba.push(255);
                rgba.push(20);
                rgba.push(255);
            }
            proof {
                assert(forall|i: int| 0 <= i < before.len() ==> rgba@[i] == before[i]);
                assert forall|c: int, r: int|
                    #![trigger icon_pixel(c, r)]
                    0 <= c < ICON_SIZE && 0 <= r < y implies (r * ICON_SIZE + c) * 4 + 3
                    < before.len() by {
                    assert((r * 32 + c) * 4 + 3 < y * 32 * 4) by (nonlinear_arith)
                        requires
                            0 <= c < 32,
                            0 <= r < y,
                    ;
                }
            }
            x += 1;
        }
        y += 1;
    }
    rgba
}

/// Tells double clicks on the tray icon from single ones.
pub struct ClickTracker {
    last_click: Option<u64>,
}

/// Whether a click at `now` completes a double click begun at `last`.
pub open spec fn completes_double_click(last: Option<u64>, now: u64) -> bool {
    match last {
        Some(then) => now < then || now - then < DOUBLE_CLICK_MILLIS,
        None => false,
    }
}

impl ClickTracker {
    /// Time of the click that a double click may still follow, in
    /// milliseconds on the caller's clock.
    pub closed spec fn pending(&self) -> Option<u64> {
        self.last_click
    }

    /// A tracker that has seen no click.
    pub fn new() -> (tracker: Self)
        ensures
            tracker.pending() is None,
    {
        ClickTracker { last_click: None }
    }

    /// Takes a click of the left button at `now`, in milliseconds on the
    /// caller's clock, and returns whether it completes a double click. A
    /// double click is used up; any other click is remembered as the first
    /// of a possible double click.
    pub fn on_left_click(&mut self, now: u64) -> (double: bool)
        ensures
            double == completes_double_click(old(self).pending(), now),
            final(self).pending() == if double {
                None
            } else {
                Some(now)
            },
    {
        let double = match self.last_click {
            Some(then) => now < then || now - then < DOUBLE_CLICK_MILLIS,
            None => false,
        };
        if double {
            self.last_click = None;
        } else {
            self.last_click = Some(now);
        }
        double
    }
}

} // verus!
