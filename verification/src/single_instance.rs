//! One window for each user: a second program shows the window of the first.

use vstd::prelude::*;
use crate::text;
use crate::text::{begins_with, chars_of};
use crate::wide;
use crate::wide::decode_lossy;

verus! {

/// The name of the mutex that the program with the window holds.
pub const MUTEX_NAME: &'static str = "Local\\SpoolCtl_GUI_SingleInstance";

/// The class of the window behind the tray icon.
pub const TRAY_CLASS: &'static str = "SpoolCtlTrayHidden";

/// What the title of the window begins with.
pub const TITLE_START: &'static str = "SpoolCtl";

/// Who has the window.
#[derive(Debug, Clone, Copy, PartialEq, Eq, Structural)]
pub enum Slot {
    /// This program, and the mutex is to be kept.
    Ours,
    /// This program, for want of a mutex: better two windows than none.
    Unguarded,
    /// Another program, whose window is to be shown; the mutex is to be closed.
    Taken,
}

/// Who has the window: `mutex` is `None` where no mutex could be made, and else says
/// whether it was there before.
pub fn try_acquire_gui(mutex: Option<bool>) -> (r: Slot)
    ensures
        r == match mutex {
            None => Slot::Unguarded,
            Some(true) => Slot::Taken,
            Some(false) => Slot::Ours,
        },
{
    match mutex {
        None => Slot::Unguarded,
        Some(true) => Slot::Taken,
        Some(false) => Slot::Ours,
    }
}

impl Slot {
    /// Whether this program may show a window.
    pub fn granted(self) -> (r: bool)
        ensures
            r == !(self is Taken),
    {
        match self {
            Slot::Taken => false,
            _ => true,
        }
    }
}

/// Gives the mutex back, so that a copy of the program with more rights can have it:
/// `held` is the mutex, or zero. What is to be closed, if anything.
pub fn release_gui(held: &mut i64) -> (r: Option<i64>)
    ensures
        *final(held) == 0,
        r == (if *old(held) != 0 {
            Some(*old(held))
        } else {
            None::<i64>
        }),
{
    let raw: i64 = *held;
    *held = 0;
    if raw != 0 {
        Some(raw)
    } else {
        None
    }
}

/// The class of a window is that of the window behind the tray icon.
pub open spec fn tray_host(class: Seq<u16>) -> bool {
    class.len() > 0 && wide::utf16_lossy(class) == TRAY_CLASS@
}

/// A window by its class and its title is the window of the program.
pub open spec fn main_window(class: Seq<u16>, title: Seq<u16>) -> bool {
    !tray_host(class) && title.len() > 0 && text::begins(wide::utf16_lossy(title), TITLE_START@)
}

/// Whether a window is the one behind the tray icon, by its class.
pub fn is_tray_host(class: &Vec<u16>) -> (r: bool)
    ensures
        r == tray_host(class@),
{
    if class.len() == 0 {
        return false;
    }
    text::same(decode_lossy(class).as_str(), TRAY_CLASS)
}

/// Whether a window is the window of the program, by its class and its title.
pub fn is_main_window(class: &Vec<u16>, title: &Vec<u16>) -> (r: bool)
    ensures
        r == main_window(class@, title@),
{
    if is_tray_host(class) || title.len() == 0 {
        return false;
    }
    begins_with(&chars_of(decode_lossy(title).as_str()), TITLE_START)
}

/// How the window of a running program is brought to the front.
#[derive(Debug, Clone, Copy, PartialEq, Eq, Structural)]
pub enum Activation {
    /// Its tray icon is asked to show it.
    AskTray,
    /// It is shown directly.
    ShowWindow,
    /// It is not there.
    Nothing,
}

/// How the window of a running program is brought to the front: its tray icon can
/// always do it, and else the window itself is shown.
pub fn activate_running_instance(tray_found: bool, window_found: bool) -> (r: Activation)
    ensures
        r == (if tray_found {
            Activation::AskTray
        } else if window_found {
            Activation::ShowWindow
        } else {
            Activation::Nothing
        }),
{
    if tray_found {
        Activation::AskTray
    } else if window_found {
        Activation::ShowWindow
    } else {
        Activation::Nothing
    }
}

/// No window is both the window of the program and the one behind its tray icon.
pub proof fn law_windows_are_told_apart(class: Seq<u16>, title: Seq<u16>)
    ensures
        !(tray_host(class) && main_window(class, title)),
{
}

/// The window behind the tray icon is known by its class alone, and the window of the
/// program by what its title begins with.
pub proof fn law_windows_are_known_by_their_names(
    class: Seq<u16>,
    title: Seq<u16>,
    rest: Seq<char>,
)
    ensures
        tray_host(wide::utf16("SpoolCtlTrayHidden"@)),
        tray_host(class) ==> wide::utf16_lossy(class) == "SpoolCtlTrayHidden"@,
        !tray_host(class) ==> main_window(class, wide::utf16("SpoolCtl"@ + rest)),
        main_window(class, title) ==> text::begins(wide::utf16_lossy(title), "SpoolCtl"@),
        class.len() == 0 ==> !tray_host(class),
        title.len() == 0 ==> !main_window(class, title),
{
    reveal_strlit("SpoolCtlTrayHidden");
    reveal_strlit("SpoolCtl");
    wide::law_utf16_reads_back("SpoolCtlTrayHidden"@);
    let t = "SpoolCtl"@ + rest;
    wide::law_utf16_reads_back(t);
    assert(t.subrange(0, "SpoolCtl"@.len() as int) =~= "SpoolCtl"@);
    assert(wide::utf16_lossy(Seq::<u16>::empty()).len() == 0);
    if wide::utf16("SpoolCtlTrayHidden"@).len() == 0 {
        assert(wide::utf16("SpoolCtlTrayHidden"@) =~= Seq::<u16>::empty());
    }
    if wide::utf16(t).len() == 0 {
        assert(wide::utf16(t) =~= Seq::<u16>::empty());
    }
}

} // verus!
