//! The icon in the tray: its menu, its messages, and what they do.

use vstd::prelude::*;
use crate::wide;
use crate::wide::encode_units;

verus! {

/// The message of the icon: the mouse did something to it.
pub const WM_TRAYICON: u32 = 0x8028;

/// The message of another program that asks for the window.
pub const WM_SPOOLCTL_ACTIVATE: u32 = 0x8029;

pub const WM_CREATE: u32 = 0x0001;

pub const WM_DESTROY: u32 = 0x0002;

pub const WM_CONTEXTMENU: u32 = 0x007B;

pub const WM_COMMAND: u32 = 0x0111;

pub const WM_LBUTTONUP: u32 = 0x0202;

pub const WM_LBUTTONDBLCLK: u32 = 0x0203;

pub const WM_RBUTTONUP: u32 = 0x0205;

/// The items of the menu.
pub const ID_SHOW: u64 = 1;

pub const ID_HIDE: u64 = 2;

pub const ID_QUIT: u64 = 3;

/// How often the icon is looked for after it was asked for.
pub const READY_TRIES: u32 = 50;

/// How long to wait between two looks, in milliseconds.
pub const READY_PAUSE_MS: u32 = 20;

/// What the tray asks of the window.
#[derive(Debug, Clone, Copy, PartialEq, Eq, Structural)]
pub enum TrayCmd {
    Show,
    Hide,
    Quit,
}

/// What the tray has asked of the window and the window has not done yet.
#[derive(Debug)]
pub struct AppTray {
    waiting: Vec<TrayCmd>,
    allow_exit: bool,
}

impl AppTray {
    /// What waits to be done, oldest first.
    pub closed spec fn waiting(&self) -> Seq<TrayCmd> {
        self.waiting@
    }

    /// Whether closing the window ends the program.
    pub closed spec fn exit_allowed(&self) -> bool {
        self.allow_exit
    }

    /// A tray that has asked for nothing.
    pub fn empty() -> (r: Self)
        ensures
            r.waiting() == Seq::<TrayCmd>::empty(),
            !r.exit_allowed(),
    {
        AppTray { waiting: Vec::new(), allow_exit: false }
    }

    /// Asks something of the window.
    pub fn send(&mut self, cmd: TrayCmd)
        ensures
            final(self).waiting() == old(self).waiting().push(cmd),
            final(self).exit_allowed() == old(self).exit_allowed(),
    {
        self.waiting.push(cmd);
    }

    /// What was asked first, if anything is waiting.
    pub fn poll(&mut self) -> (r: Option<TrayCmd>)
        ensures
            final(self).exit_allowed() == old(self).exit_allowed(),
            if old(self).waiting().len() == 0 {
                r is None && final(self).waiting() == old(self).waiting()
            } else {
                r == Some(old(self).waiting()[0]) && final(self).waiting()
                    == old(self).waiting().drop_first()
            },
    {
        if self.waiting.len() == 0 {
            None
        } else {
            let cmd = self.waiting.remove(0);
            assert(self.waiting@ =~= old(self).waiting@.drop_first());
            Some(cmd)
        }
    }

    /// Lets the next closing of the window end the program.
    pub fn allow_exit(&mut self)
        ensures
            final(self).exit_allowed(),
            final(self).waiting() == old(self).waiting(),
    {
        self.allow_exit = true;
    }

    /// Whether closing the window ends the program; the leave is used up by asking.
    pub fn take_allow_exit(&mut self) -> (r: bool)
        ensures
            r == old(self).exit_allowed(),
            !final(self).exit_allowed(),
            final(self).waiting() == old(self).waiting(),
    {
        let r = self.allow_exit;
        self.allow_exit = false;
        r
    }
}

// ---------------------------------------------------------------------------
// Messages

/// What a message of the icon's window comes to.
#[derive(Debug, Clone, Copy, PartialEq, Eq, Structural)]
pub enum TrayAct {
    /// Remember whom to send to.
    Attach,
    Show,
    Hide,
    Quit,
    /// Show the menu.
    Menu,
    /// Nothing.
    Ignore,
    /// What the system does by default.
    Default,
}

/// What an item of the menu does.
pub open spec fn chosen(id: int) -> TrayAct {
    if id == ID_SHOW {
        TrayAct::Show
    } else if id == ID_HIDE {
        TrayAct::Hide
    } else if id == ID_QUIT {
        TrayAct::Quit
    } else {
        TrayAct::Ignore
    }
}

/// What the mouse does to the icon.
pub open spec fn clicked(event: int) -> TrayAct {
    if event == WM_LBUTTONUP || event == WM_LBUTTONDBLCLK {
        TrayAct::Show
    } else if event == WM_RBUTTONUP || event == WM_CONTEXTMENU {
        TrayAct::Menu
    } else {
        TrayAct::Ignore
    }
}

/// What a message comes to: the low half of `lparam` is what the mouse did, and that
/// of `wparam` the item of the menu.
pub open spec fn message_act(msg: u32, wparam: u64, lparam: u32) -> TrayAct {
    if msg == WM_CREATE {
        TrayAct::Attach
    } else if msg == WM_TRAYICON {
        clicked(lparam as int % 0x1_0000)
    } else if msg == WM_SPOOLCTL_ACTIVATE {
        TrayAct::Show
    } else if msg == WM_COMMAND {
        chosen(wparam as int % 0x1_0000)
    } else if msg == WM_DESTROY {
        TrayAct::Ignore
    } else {
        TrayAct::Default
    }
}

/// What an item of the menu does.
pub fn menu_choice(id: u64) -> (r: TrayAct)
    ensures
        r == chosen(id as int),
{
    if id == ID_SHOW {
        TrayAct::Show
    } else if id == ID_HIDE {
        TrayAct::Hide
    } else if id == ID_QUIT {
        TrayAct::Quit
    } else {
        TrayAct::Ignore
    }
}

/// What a message of the icon's window comes to.
pub fn tray_message(msg: u32, wparam: u64, lparam: u32) -> (r: TrayAct)
    ensures
        r == message_act(msg, wparam, lparam),
{
    if msg == WM_CREATE {
        return TrayAct::Attach;
    }
    if msg == WM_TRAYICON {
        let event: u32 = lparam % 0x1_0000;
        return if event == WM_LBUTTONUP || event == WM_LBUTTONDBLCLK {
            TrayAct::Show
        } else if event == WM_RBUTTONUP || event == WM_CONTEXTMENU {
            TrayAct::Menu
        } else {
            TrayAct::Ignore
        };
    }
    if msg == WM_SPOOLCTL_ACTIVATE {
        return TrayAct::Show;
    }
    if msg == WM_COMMAND {
        return menu_choice(wparam % 0x1_0000);
    }
    if msg == WM_DESTROY {
        return TrayAct::Ignore;
    }
    TrayAct::Default
}

/// One thing to do to the window, or to tell it.
#[derive(Debug, Clone, Copy, PartialEq, Eq, Structural)]
pub enum TrayStep {
    ShowMain,
    HideMain,
    AllowExit,
    Send(TrayCmd),
    /// Close the window, if there is one.
    CloseMain,
}

/// What an act does, step by step.
pub open spec fn act_steps(act: TrayAct) -> Seq<TrayStep> {
    match act {
        TrayAct::Show => seq![TrayStep::ShowMain, TrayStep::Send(TrayCmd::Show)],
        TrayAct::Hide => seq![TrayStep::HideMain, TrayStep::Send(TrayCmd::Hide)],
        TrayAct::Quit => seq![
            TrayStep::AllowExit,
            TrayStep::ShowMain,
            TrayStep::Send(TrayCmd::Quit),
            TrayStep::CloseMain,
        ],
        _ => seq![],
    }
}

/// What an act does, step by step.
pub fn tray_steps(act: TrayAct) -> (r: Vec<TrayStep>)
    ensures
        r@ == act_steps(act),
{
    let mut v: Vec<TrayStep> = Vec::new();
    match act {
        TrayAct::Show => {
            v.push(TrayStep::ShowMain);
            v.push(TrayStep::Send(TrayCmd::Show));
        },
        TrayAct::Hide => {
            v.push(TrayStep::HideMain);
            v.push(TrayStep::Send(TrayCmd::Hide));
        },
        TrayAct::Quit => {
            v.push(TrayStep::AllowExit);
            v.push(TrayStep::ShowMain);
            v.push(TrayStep::Send(TrayCmd::Quit));
            v.push(TrayStep::CloseMain);
        },
        _ => {},
    }
    assert(v@ =~= act_steps(act));
    v
}

/// The window is closed only after leave to end the program was given, and nothing
/// but leaving closes it.
pub proof fn law_only_quitting_closes_the_window(act: TrayAct)
    ensures
        act_steps(act).contains(TrayStep::CloseMain) <==> act is Quit,
        act_steps(act).contains(TrayStep::AllowExit) <==> act is Quit,
        act is Quit ==> act_steps(act)[0] == TrayStep::AllowExit,
{
    let s = act_steps(act);
    if act is Quit {
        assert(s[3] == TrayStep::CloseMain);
        assert(s[0] == TrayStep::AllowExit);
    }
}

/// The menu: its items and what they say, the first of them being the default.
pub fn menu_items() -> (r: Vec<(u64, &'static str)>)
    ensures
        r.len() == 3,
        r[0].0 == ID_SHOW && r[0].1@ == "Показать окно"@,
        r[1].0 == ID_HIDE && r[1].1@ == "Скрыть в трей"@,
        r[2].0 == ID_QUIT && r[2].1@ == "Выход"@,
{
    let mut v: Vec<(u64, &'static str)> = Vec::new();
    v.push((ID_SHOW, "Показать окно"));
    v.push((ID_HIDE, "Скрыть в трей"));
    v.push((ID_QUIT, "Выход"));
    v
}

// ---------------------------------------------------------------------------
// The icon

/// What the icon says when the mouse rests on it.
pub fn first_tip(version: &str) -> (r: String)
    ensures
        r@ == "SpoolCtl "@ + version@ + "\nЛКМ — окно, ПКМ — меню"@,
{
    let mut s = "SpoolCtl ".to_owned();
    s.append(version);
    s.append("\nЛКМ — окно, ПКМ — меню");
    s
}

/// A text in a buffer of `len` code units: as much of it as fits before the last
/// one, and zeros behind it.
pub open spec fn in_buffer(s: Seq<char>, len: nat) -> Seq<u16> {
    let u = wide::utf16(s);
    Seq::new(
        len,
        |i: int|
            if i < u.len() && i < len - 1 {
                u[i]
            } else {
                0
            },
    )
}

/// A text in a buffer of `len` code units.
pub fn write_wide(len: usize, s: &str) -> (r: Vec<u16>)
    ensures
        r@ == in_buffer(s@, len as nat),
{
    let u = encode_units(s);
    let mut v: Vec<u16> = Vec::new();
    for i in 0..len
        invariant
            u@ == wide::utf16(s@),
            v@ == in_buffer(s@, len as nat).take(i as int),
    {
        if i < u.len() && i < len - 1 {
            v.push(u[i]);
        } else {
            v.push(0);
        }
        assert(v@ =~= in_buffer(s@, len as nat).take(i + 1));
    }
    assert(in_buffer(s@, len as nat).take(len as int) =~= in_buffer(s@, len as nat));
    v
}

/// A buffer always ends with a zero, and a text that fits reads back from it.
pub proof fn law_buffer_is_terminated(s: Seq<char>, len: nat)
    requires
        len > 0,
    ensures
        in_buffer(s, len)[len - 1] == 0,
        wide::utf16(s).len() < len && !s.contains('\0') ==> wide::utf16_lossy(
            wide::before_nul(in_buffer(s, len)),
        ) == s,
{
    let u = wide::utf16(s);
    let b = in_buffer(s, len);
    if u.len() < len && !s.contains('\0') {
        let tail = b.skip(u.len() as int);
        assert(b =~= u + tail);
        assert(tail[0] == b[u.len() as int]);
        wide::lemma_no_nul(s);
        wide::lemma_before_nul(u, tail);
        wide::law_utf16_reads_back(s);
    }
}

/// Whether the icon is there, after `tries` looks at it.
#[derive(Debug, Clone, Copy, PartialEq, Eq, Structural)]
pub enum Ready {
    Yes,
    Wait,
    No,
}

/// Whether the icon is there, or to be waited for, or to be given up.
pub fn icon_ready(ready: bool, tries: u32) -> (r: Ready)
    ensures
        r == (if ready {
            Ready::Yes
        } else if tries < 50 {
            Ready::Wait
        } else {
            Ready::No
        }),
{
    if ready {
        Ready::Yes
    } else if tries < READY_TRIES {
        Ready::Wait
    } else {
        Ready::No
    }
}

/// What is said when the icon has to be given up.
pub fn not_ready_ru() -> (r: &'static str)
    ensures
        r@ == "Иконка трея не зарегистрировалась вовремя"@,
{
    "Иконка трея не зарегистрировалась вовремя"
}

/// Where making the icon failed.
#[derive(Debug, PartialEq, Eq)]
pub enum SetupFailure {
    /// The program did not find itself.
    Module(String),
    /// The window behind the icon was not made.
    Window(String),
    /// The icon was not taken.
    Icon,
}

/// One thing to clean up.
#[derive(Debug, Clone, Copy, PartialEq, Eq, Structural)]
pub enum Cleanup {
    RemoveIcon,
    /// Free the picture of the icon.
    FreePicture,
    DestroyWindow,
    /// Free what messages are sent with.
    FreeSender,
}

/// What is to be cleaned up after a failure: what was made before it, in the
/// opposite order.
pub open spec fn cleanup_after(f: SetupFailure) -> Seq<Cleanup> {
    match f {
        SetupFailure::Module(_) => seq![],
        SetupFailure::Window(_) => seq![Cleanup::FreeSender],
        SetupFailure::Icon => seq![Cleanup::DestroyWindow, Cleanup::FreeSender],
    }
}

/// A failure in words.
pub open spec fn setup_error(f: SetupFailure) -> Seq<char> {
    match f {
        SetupFailure::Module(e) => "GetModuleHandle: "@ + e@,
        SetupFailure::Window(e) => "CreateWindowEx (tray): "@ + e@,
        SetupFailure::Icon => "Shell_NotifyIcon(NIM_ADD) вернул FALSE"@,
    }
}

/// What is to be cleaned up after a failure to make the icon, and the failure in
/// words.
pub fn setup_failed(f: &SetupFailure) -> (r: (Vec<Cleanup>, String))
    ensures
        r.0@ == cleanup_after(*f),
        r.1@ == setup_error(*f),
{
    let mut v: Vec<Cleanup> = Vec::new();
    let s = match f {
        SetupFailure::Module(e) => {
            let mut s = "GetModuleHandle: ".to_owned();
            s.append(e.as_str());
            s
        },
        SetupFailure::Window(e) => {
            v.push(Cleanup::FreeSender);
            let mut s = "CreateWindowEx (tray): ".to_owned();
            s.append(e.as_str());
            s
        },
        SetupFailure::Icon => {
            v.push(Cleanup::DestroyWindow);
            v.push(Cleanup::FreeSender);
            "Shell_NotifyIcon(NIM_ADD) вернул FALSE".to_owned()
        },
    };
    assert(v@ =~= cleanup_after(*f));
    (v, s)
}

/// Whether there are more messages to come, by what asking for one returned.
pub fn pump_goes_on(code: i32) -> (r: bool)
    ensures
        r == (code != 0 && code != -1),
{
    code != 0 && code != -1
}

/// What is to be cleaned up at the end. The picture is freed only where it is the
/// program's own: there is one, and it is not the one that all programs share.
pub open spec fn final_cleanup(picture: i64, shared: i64) -> Seq<Cleanup> {
    seq![Cleanup::RemoveIcon] + if picture != 0 && picture != -1 && picture != shared {
        seq![Cleanup::FreePicture]
    } else {
        seq![]
    } + seq![Cleanup::DestroyWindow, Cleanup::FreeSender]
}

/// What is to be cleaned up at the end.
pub fn shut_down(picture: i64, shared: i64) -> (r: Vec<Cleanup>)
    ensures
        r@ == final_cleanup(picture, shared),
{
    let mut v: Vec<Cleanup> = Vec::new();
    v.push(Cleanup::RemoveIcon);
    if picture != 0 && picture != -1 && picture != shared {
        v.push(Cleanup::FreePicture);
    }
    v.push(Cleanup::DestroyWindow);
    v.push(Cleanup::FreeSender);
    assert(v@ =~= final_cleanup(picture, shared));
    v
}

/// What is put in the log once the icon is there.
pub fn icon_ready_log_ru() -> (r: &'static str)
    ensures
        r@ == "Иконка трея зарегистрирована (ЛКМ — показать, ПКМ — меню)"@,
{
    "Иконка трея зарегистрирована (ЛКМ — показать, ПКМ — меню)"
}

/// However making the icon goes on, what messages are sent with is freed exactly
/// once, if it was made at all, and the window behind the icon is destroyed wherever
/// it was made.
pub proof fn law_nothing_is_left_behind(f: SetupFailure, picture: i64, shared: i64)
    ensures
        !(f is Module) ==> cleanup_after(f).last() == Cleanup::FreeSender,
        f is Icon <==> cleanup_after(f).contains(Cleanup::DestroyWindow),
        cleanup_after(f).no_duplicates(),
        final_cleanup(picture, shared).last() == Cleanup::FreeSender,
        final_cleanup(picture, shared).contains(Cleanup::DestroyWindow),
        final_cleanup(picture, shared).no_duplicates(),
{
    let e = final_cleanup(picture, shared);
    assert(e[e.len() - 2] == Cleanup::DestroyWindow);
    if f is Icon {
        assert(cleanup_after(f)[0] == Cleanup::DestroyWindow);
    }
}

// ---------------------------------------------------------------------------
// What holds of messages and of the icon

/// A click with the left button shows the window and one with the right button the
/// menu; so do the items of the menu what they say, and another program that asks for
/// the window gets it. Of both parameters only the low half counts.
pub proof fn law_messages_do_what_they_say(msg: u32, wparam: u64, lparam: u32)
    ensures
        msg == 0x8028 && (lparam % 0x1_0000 == 0x202 || lparam % 0x1_0000 == 0x203) ==> message_act(
            msg,
            wparam,
            lparam,
        ) is Show,
        msg == 0x8028 && (lparam % 0x1_0000 == 0x205 || lparam % 0x1_0000 == 0x7B) ==> message_act(
            msg,
            wparam,
            lparam,
        ) is Menu,
        msg == 0x8028 && lparam % 0x1_0000 != 0x202 && lparam % 0x1_0000 != 0x203 && lparam
            % 0x1_0000 != 0x205 && lparam % 0x1_0000 != 0x7B ==> message_act(
            msg,
            wparam,
            lparam,
        ) is Ignore,
        msg == 0x8029 ==> message_act(msg, wparam, lparam) is Show,
        msg == 0x111 && wparam % 0x1_0000 == 1 ==> message_act(msg, wparam, lparam) is Show,
        msg == 0x111 && wparam % 0x1_0000 == 2 ==> message_act(msg, wparam, lparam) is Hide,
        msg == 0x111 && wparam % 0x1_0000 == 3 ==> message_act(msg, wparam, lparam) is Quit,
        msg == 0x111 && (wparam % 0x1_0000 == 0 || wparam % 0x1_0000 > 3) ==> message_act(
            msg,
            wparam,
            lparam,
        ) is Ignore,
        msg == 1 ==> message_act(msg, wparam, lparam) is Attach,
        msg == 2 ==> message_act(msg, wparam, lparam) is Ignore,
        msg != 1 && msg != 2 && msg != 0x111 && msg != 0x8028 && msg != 0x8029 ==> message_act(
            msg,
            wparam,
            lparam,
        ) is Default,
{
}

/// To show, to hide and to quit is done to the window and told to it, and the other
/// acts do nothing to it.
pub proof fn law_acts_reach_the_window(act: TrayAct)
    ensures
        act is Show ==> act_steps(act) == seq![
            TrayStep::ShowMain,
            TrayStep::Send(TrayCmd::Show),
        ],
        act is Hide ==> act_steps(act) == seq![
            TrayStep::HideMain,
            TrayStep::Send(TrayCmd::Hide),
        ],
        act is Quit ==> act_steps(act) == seq![
            TrayStep::AllowExit,
            TrayStep::ShowMain,
            TrayStep::Send(TrayCmd::Quit),
            TrayStep::CloseMain,
        ],
        !(act is Show || act is Hide || act is Quit) ==> act_steps(act).len() == 0,
{
}

/// What is freed at the end: the picture only where it is the program's own. After a
/// failure only what was made before it is freed, and the failure is named.
pub proof fn law_only_own_things_are_freed(f: SetupFailure, picture: i64, shared: i64)
    ensures
        final_cleanup(picture, shared)[0] == Cleanup::RemoveIcon,
        picture != 0 && picture != -1 && picture != shared ==> final_cleanup(picture, shared)
            == seq![
            Cleanup::RemoveIcon,
            Cleanup::FreePicture,
            Cleanup::DestroyWindow,
            Cleanup::FreeSender,
        ],
        picture == 0 || picture == -1 || picture == shared ==> final_cleanup(picture, shared)
            == seq![Cleanup::RemoveIcon, Cleanup::DestroyWindow, Cleanup::FreeSender],
        f is Module ==> cleanup_after(f).len() == 0 && setup_error(f) == "GetModuleHandle: "@
            + f->Module_0@,
        f is Window ==> cleanup_after(f) == seq![Cleanup::FreeSender] && setup_error(f)
            == "CreateWindowEx (tray): "@ + f->Window_0@,
        f is Icon ==> cleanup_after(f) == seq![Cleanup::DestroyWindow, Cleanup::FreeSender]
            && setup_error(f) == "Shell_NotifyIcon(NIM_ADD) вернул FALSE"@,
{
    let r = final_cleanup(picture, shared);
    if picture != 0 && picture != -1 && picture != shared {
        assert(r =~= seq![
            Cleanup::RemoveIcon,
            Cleanup::FreePicture,
            Cleanup::DestroyWindow,
            Cleanup::FreeSender,
        ]);
    } else {
        assert(r =~= seq![Cleanup::RemoveIcon, Cleanup::DestroyWindow, Cleanup::FreeSender]);
    }
}

/// As much of a text stands in a buffer as has room there.
pub proof fn law_buffer_holds_what_fits(s: Seq<char>, len: nat, i: int)
    requires
        0 <= i < len,
    ensures
        in_buffer(s, len).len() == len,
        i < wide::utf16(s).len() && i < len - 1 ==> in_buffer(s, len)[i] == wide::utf16(s)[i],
        i >= wide::utf16(s).len() ==> in_buffer(s, len)[i] == 0,
{
}

} // verus!
