//! The notification area: its icon, its menu, and starting minimized.
use std::collections::VecDeque;

use vstd::prelude::*;

use crate::text::{around, same_text};

verus! {

/// The side of the tray icon, in pixels.
pub const TRAY_SIZE: u32 = 32;

/// What the user asked for in the notification area.
#[derive(Clone, Copy, PartialEq, Eq, Debug, Structural)]
pub enum TrayAction {
    Show,
    Hide,
    Exit,
}

/// The action of a menu entry.
pub open spec fn menu_action(menu_id: Seq<char>) -> Option<TrayAction> {
    if menu_id == "show-window"@ {
        Some(TrayAction::Show)
    } else if menu_id == "hide-window"@ {
        Some(TrayAction::Hide)
    } else if menu_id == "exit-app"@ {
        Some(TrayAction::Exit)
    } else {
        None
    }
}

/// The action of the menu entry `menu_id`.
pub fn tray_action_for_menu_id(menu_id: &str) -> (action: Option<TrayAction>)
    ensures
        action == menu_action(menu_id@),
{
    if same_text(menu_id, "show-window") {
        Some(TrayAction::Show)
    } else if same_text(menu_id, "hide-window") {
        Some(TrayAction::Hide)
    } else if same_text(menu_id, "exit-app") {
        Some(TrayAction::Exit)
    } else {
        None
    }
}

/// The actions that the notification area has collected and the window has not yet taken.
pub struct TrayController {
    pub actions: VecDeque<TrayAction>,
}

impl TrayController {
    /// A controller with nothing collected.
    pub fn new() -> (controller: TrayController)
        ensures
            controller.actions@ == Seq::<TrayAction>::empty(),
    {
        TrayController { actions: VecDeque::new() }
    }

    /// Takes everything that has been collected, oldest first.
    pub fn drain_actions(&mut self) -> (actions: Vec<TrayAction>)
        ensures
            actions@ == old(self).actions@,
            final(self).actions@ == Seq::<TrayAction>::empty(),
    {
        let mut actions: Vec<TrayAction> = Vec::new();
        loop
            invariant
                actions@ + self.actions@ == old(self).actions@,
            ensures
                actions@ == old(self).actions@,
                self.actions@ == Seq::<TrayAction>::empty(),
            decreases self.actions@.len(),
        {
            let ghost before = self.actions@;
            let ghost taken = actions@;
            match self.actions.pop_front() {
                Some(action) => {
                    actions.push(action);
                    proof {
                        assert(actions@ + self.actions@ =~= taken + before);
                    }
                },
                None => {
                    proof {
                        assert(actions@ + self.actions@ =~= actions@);
                    }
                    break;
                },
            }
        }
        actions
    }
}

/// Collects one more action.
pub fn queue_action(controller: &mut TrayController, action: TrayAction)
    ensures
        final(controller).actions@ == old(controller).actions@.push(action),
{
    controller.actions.push_back(action);
}

/// What a click on the icon asks for.
pub open spec fn clicked(left_button: bool, released_or_double: bool) -> Option<TrayAction> {
    if left_button && released_or_double {
        Some(TrayAction::Show)
    } else {
        None
    }
}

/// What a click on the icon asks for: a released left button, or a left double click, shows the
/// window.
pub fn click_action(left_button: bool, released_or_double: bool) -> (action: Option<TrayAction>)
    ensures
        action == clicked(left_button, released_or_double),
{
    if left_button && released_or_double {
        Some(TrayAction::Show)
    } else {
        None
    }
}

/// The command that starts the program at `executable`, minimized.
pub open spec fn command_text(executable: Seq<char>) -> Seq<char> {
    "\""@ + executable + "\" --minimized"@
}

/// The command that starts the program at login.
pub fn startup_command(executable: &str) -> (command: String)
    ensures
        command@ == command_text(executable@),
{
    around("\"", executable.to_owned(), "\" --minimized")
}

/// Whether a pixel lies on the blue disc of the icon.
pub open spec fn on_disc(x: int, y: int) -> bool {
    (x - 15) * (x - 15) + (y - 15) * (y - 15) <= 14 * 14
}

/// Whether a pixel lies on the white letter of the icon: an upright stroke and a foot.
pub open spec fn on_letter(x: int, y: int) -> bool {
    (11 <= x <= 15 && 8 <= y <= 23) || (11 <= x <= 22 && 19 <= y <= 23)
}

/// The colour of a pixel: red, green, blue and opacity. Outside letter and disc it is clear.
pub open spec fn icon_pixel(x: int, y: int) -> (u8, u8, u8, u8) {
    if on_letter(x, y) {
        (255, 255, 255, 255)
    } else if on_disc(x, y) {
        (25, 110, 190, 255)
    } else {
        (0, 0, 0, 0)
    }
}

/// The `i`-th byte of the icon: row by row, four bytes for each pixel.
pub open spec fn icon_byte(i: int) -> u8 {
    let pixel = icon_pixel((i / 4) % 32, (i / 4) / 32);
    if i % 4 == 0 {
        pixel.0
    } else if i % 4 == 1 {
        pixel.1
    } else if i % 4 == 2 {
        pixel.2
    } else {
        pixel.3
    }
}

fn pixel_of(x: i32, y: i32) -> (pixel: (u8, u8, u8, u8))
    requires
        0 <= x < 32,
        0 <= y < 32,
    ensures
        pixel == icon_pixel(x as int, y as int),
{
    let center: i32 = (TRAY_SIZE as i32 - 1) / 2;
    let radius: i32 = 14;
    let dx: i32 = x - center;
    let dy: i32 = y - center;
    proof {
        assert(center == 15);
        assert(0 <= dx * dx <= 256) by (nonlinear_arith)
            requires
                -16 <= dx <= 16,
        ;
        assert(0 <= dy * dy <= 256) by (nonlinear_arith)
            requires
                -16 <= dy <= 16,
        ;
    }
    if (11 <= x && x <= 15 && 8 <= y && y <= 23) || (11 <= x && x <= 22 && 19 <= y && y <= 23) {
        (255, 255, 255, 255)
    } else if dx * dx + dy * dy <= radius * radius {
        (25, 110, 190, 255)
    } else {
        (0, 0, 0, 0)
    }
}

/// The icon of the notification area.
pub fn tray_icon_rgba() -> (pixels: Vec<u8>)
    ensures
        pixels@ == Seq::new(4096, |i: int| icon_byte(i)),
{
    let mut pixels: Vec<u8> = Vec::new();
    let mut p: i32 = 0;
    while p < 1024
        invariant
            0 <= p <= 1024,
            pixels@.len() == 4 * p,
            forall|i: int| 0 <= i < pixels@.len() ==> #[trigger] pixels@[i] == icon_byte(i),
        decreases 1024 - p,
    {
        let pixel = pixel_of(p % 32, p / 32);
        proof {
            let b = 4 * p;
            assert(b / 4 == p && (b + 1) / 4 == p && (b + 2) / 4 == p && (b + 3) / 4 == p);
            assert(icon_byte(b) == pixel.0);
            assert(icon_byte(b + 1) == pixel.1);
            assert(icon_byte(b + 2) == pixel.2);
            assert(icon_byte(b + 3) == pixel.3);
        }
        pixels.push(pixel.0);
        pixels.push(pixel.1);
        pixels.push(pixel.2);
        pixels.push(pixel.3);
        p = p + 1;
    }
    proof {
        assert(pixels@ =~= Seq::new(4096, |i: int| icon_byte(i)));
    }
    pixels
}

/// Whether one of the arguments asks for a minimized start.
pub fn starts_minimized(arguments: &Vec<String>) -> (yes: bool)
    ensures
        yes == exists|i: int|
            0 <= i < arguments@.len() && #[trigger] arguments@[i]@ == "--minimized"@,
{
    let mut i: usize = 0;
    while i < arguments.len()
        invariant
            i <= arguments@.len(),
            forall|j: int| 0 <= j < i ==> #[trigger] arguments@[j]@ != "--minimized"@,
        decreases arguments.len() - i,
    {
        if same_text(arguments[i].as_str(), "--minimized") {
            return true;
        }
        i = i + 1;
    }
    false
}

// ---- What holds of the menu and the icon ----

/// Each of the three menu entries has its action, and no other word has one.
pub proof fn law_menu_entries(menu_id: Seq<char>)
    ensures
        menu_action(menu_id) == Some(TrayAction::Show) <==> menu_id == "show-window"@,
        menu_action(menu_id) == Some(TrayAction::Hide) <==> menu_id == "hide-window"@,
        menu_action(menu_id) == Some(TrayAction::Exit) <==> menu_id == "exit-app"@,
        menu_action(menu_id) is None <==> menu_id != "show-window"@ && menu_id != "hide-window"@
            && menu_id != "exit-app"@,
{
    reveal_strlit("show-window");
    reveal_strlit("hide-window");
    reveal_strlit("exit-app");
    assert("show-window"@[0] != "hide-window"@[0] && "show-window"@[0] != "exit-app"@[0]
        && "hide-window"@[0] != "exit-app"@[0]);
}

/// The command quotes the path, whatever it holds, and asks for a minimized start.
pub proof fn law_the_command_quotes_the_path(executable: Seq<char>)
    ensures
        command_text(executable)[0] == '"',
        command_text(executable).subrange(1, 1 + executable.len() as int) == executable,
        command_text(executable).skip(1 + executable.len() as int) == "\" --minimized"@,
{
    reveal_strlit("\"");
    let text = command_text(executable);
    assert(text.subrange(1, 1 + executable.len() as int) =~= executable);
    assert(text.skip(1 + executable.len() as int) =~= "\" --minimized"@);
}

/// The pixel in column `x` and row `y` stands in four bytes, row by row.
pub proof fn law_pixels_stand_row_by_row(x: int, y: int)
    requires
        0 <= x < 32,
        0 <= y < 32,
    ensures
        ({
            let at = 4 * (32 * y + x);
            (icon_byte(at), icon_byte(at + 1), icon_byte(at + 2), icon_byte(at + 3)) == icon_pixel(
                x,
                y,
            )
        }),
{
    let at = 4 * (32 * y + x);
    assert(at / 4 == 32 * y + x && (at + 1) / 4 == 32 * y + x && (at + 2) / 4 == 32 * y + x && (at
        + 3) / 4 == 32 * y + x);
    assert((32 * y + x) % 32 == x && (32 * y + x) / 32 == y);
}

/// The icon: a white letter of an upright stroke and a foot, on a blue disc of radius 14 around the
/// pixel (15, 15), on a clear ground. Within the disc nothing is clear, and outside of it nothing is
/// blue.
pub proof fn law_the_icon_is_a_letter_on_a_disc(x: int, y: int)
    requires
        0 <= x < 32,
        0 <= y < 32,
    ensures
        icon_pixel(x, y) == (255u8, 255u8, 255u8, 255u8) <==> 11 <= x <= 15 && 8 <= y <= 23 || 11
            <= x <= 22 && 19 <= y <= 23,
        icon_pixel(x, y) == (25u8, 110u8, 190u8, 255u8) ==> (x - 15) * (x - 15) + (y - 15) * (y
            - 15) <= 196,
        icon_pixel(x, y) == (0u8, 0u8, 0u8, 0u8) ==> (x - 15) * (x - 15) + (y - 15) * (y - 15) > 196,
        icon_pixel(x, y) == (255u8, 255u8, 255u8, 255u8) || icon_pixel(x, y) == (
            25u8,
            110u8,
            190u8,
            255u8,
        ) || icon_pixel(x, y) == (0u8, 0u8, 0u8, 0u8),
{
}

/// The disc is symmetric: what lies on it at one side of its middle lies on it at the other.
pub proof fn law_the_disc_is_symmetric(x: int, y: int)
    ensures
        on_disc(x, y) <==> on_disc(30 - x, y),
        on_disc(x, y) <==> on_disc(x, 30 - y),
        on_disc(x, y) <==> on_disc(y, x),
{
    assert((30 - x - 15) * (30 - x - 15) == (x - 15) * (x - 15)) by (nonlinear_arith);
    assert((30 - y - 15) * (30 - y - 15) == (y - 15) * (y - 15)) by (nonlinear_arith);
}

/// A click shows the window if it is one of the left button and has come to its end, and asks for
/// nothing otherwise.
pub proof fn law_what_a_click_asks_for(left_button: bool, released_or_double: bool)
    ensures
        clicked(left_button, released_or_double) is Some <==> left_button && released_or_double,
        clicked(left_button, released_or_double) matches Some(action) ==> action is Show,
{
}

} // verus!
