//! Watching for a hang of the service or of its queue.
//!
//! A restart without being asked comes only where the user has switched that on.

use vstd::prelude::*;
use crate::clock;
use crate::clock::{time_between, Nanos, SECOND};
use crate::lines;
use crate::lines::{join_texts, lines_of, unlines_of};
use crate::number;
use crate::number::push_decimal;
use crate::order;
use crate::order::sort_texts;
use crate::queue;
use crate::queue::PrinterEntry;
use crate::settings;
use crate::settings::{bit_text, make_line, means_on, read_entry, HEADER};
use crate::spooler;
use crate::spooler::ServiceState;
use crate::text;
use crate::text::trim_text;

verus! {

/// Jobs that stay the same for this long are taken for a hang.
pub const QUEUE_STUCK_AFTER: u128 = 90_000_000_000;

/// A service that is on its way for this long is taken for a hang.
pub const PENDING_STUCK_AFTER: u128 = 60_000_000_000;

/// The least time between two restarts that nobody asked for.
pub const AUTO_RESTART_COOLDOWN: u128 = 180_000_000_000;

// ---------------------------------------------------------------------------
// Settings

/// What the user has chosen.
#[derive(Debug, Clone, Copy, PartialEq, Eq, Structural)]
pub struct Settings {
    /// Watch the queue and the service, and warn of a hang.
    pub watch_enabled: bool,
    /// Restart the service when it hangs.
    pub auto_restart: bool,
}

impl Default for Settings {
    fn default() -> (r: Self)
        ensures
            r == (Settings { watch_enabled: false, auto_restart: false }),
    {
        Settings { watch_enabled: false, auto_restart: false }
    }
}

/// The keys under which watching is chosen.
pub open spec fn watch_keys() -> spec_fn(Seq<char>) -> bool {
    |k: Seq<char>| k == "watch_enabled"@ || k == "watch"@
}

/// The key under which restarting is chosen.
pub open spec fn restart_keys() -> spec_fn(Seq<char>) -> bool {
    |k: Seq<char>| k == "auto_restart"@
}

/// All keys of the watchdog.
pub open spec fn own_keys() -> spec_fn(Seq<char>) -> bool {
    |k: Seq<char>| k == "watch_enabled"@ || k == "watch"@ || k == "auto_restart"@
}

/// What a settings file says. Whoever wants restarts wants watching.
pub open spec fn settings_in(file: Option<Seq<char>>) -> Settings {
    let auto_restart = settings::choice(file, restart_keys());
    Settings {
        watch_enabled: settings::choice(file, watch_keys()) || auto_restart,
        auto_restart,
    }
}

/// The lines of a settings file that holds `s`, and of the file `old` what belongs
/// to others.
pub open spec fn settings_lines(old: Seq<char>, s: Settings) -> Seq<Seq<char>> {
    seq![
        HEADER@,
        settings::line_for("watch_enabled"@, settings::bit(s.watch_enabled)),
        settings::line_for("auto_restart"@, settings::bit(s.auto_restart)),
    ] + settings::others(lines::lines(old), own_keys())
}

/// The settings file that holds `s`, and of the file `old` what belongs to others.
pub open spec fn settings_file(old: Seq<char>, s: Settings) -> Seq<char> {
    lines::unlines(settings_lines(old, s))
}

/// Reads the settings file; a file that cannot be read is `None`.
pub fn load_settings(file: Option<&str>) -> (r: Settings)
    ensures
        r == settings_in(text::opt_str(file)),
{
    let mut watch_enabled = false;
    let mut auto_restart = false;
    if let Some(t) = file {
        let all = lines_of(t);
        let ghost ls = lines::lines(t@);
        assert(ls.take(0).len() == 0);
        for i in 0..all.len()
            invariant
                text::texts(all@) == ls,
                watch_enabled == (settings::last_choice(ls.take(i as int), watch_keys()) == Some(
                    true,
                )),
                auto_restart == (settings::last_choice(ls.take(i as int), restart_keys()) == Some(
                    true,
                )),
        {
            assert(ls[i as int] == all@[i as int]@);
            assert(ls.take(i + 1).drop_last() =~= ls.take(i as int));
            if let Some((k, v)) = read_entry(all[i].as_str()) {
                let on = means_on(v.as_str());
                if text::same(k.as_str(), "watch_enabled") || text::same(k.as_str(), "watch") {
                    watch_enabled = on;
                    assert(k@ != "auto_restart"@) by {
                        lemma_keys();
                    }
                } else if text::same(k.as_str(), "auto_restart") {
                    auto_restart = on;
                }
            }
        }
        assert(ls.take(all.len() as int) =~= ls);
    }
    if auto_restart {
        watch_enabled = true;
    }
    Settings { watch_enabled, auto_restart }
}

/// The settings file that holds `s`, and of the file `old` what belongs to others.
pub fn render_settings(old: &str, s: &Settings) -> (r: String)
    ensures
        r@ == settings_file(old@, *s),
{
    let mut out: Vec<String> = Vec::new();
    out.push(HEADER.to_owned());
    out.push(make_line("watch_enabled", bit_text(s.watch_enabled)));
    out.push(make_line("auto_restart", bit_text(s.auto_restart)));
    let ghost head = seq![
        HEADER@,
        settings::line_for("watch_enabled"@, settings::bit(s.watch_enabled)),
        settings::line_for("auto_restart"@, settings::bit(s.auto_restart)),
    ];
    let all = lines_of(old);
    let ghost ls = lines::lines(old@);
    assert(text::texts(out@) =~= head + settings::others(ls.take(0), own_keys()));
    for i in 0..all.len()
        invariant
            text::texts(all@) == ls,
            text::texts(out@) == head + settings::others(ls.take(i as int), own_keys()),
    {
        let ghost before = text::texts(out@);
        assert(ls[i as int] == all@[i as int]@);
        assert(ls.take(i + 1).drop_last() =~= ls.take(i as int));
        if let Some((k, _)) = read_entry(all[i].as_str()) {
            let own = text::same(k.as_str(), "watch_enabled") || text::same(k.as_str(), "watch")
                || text::same(k.as_str(), "auto_restart");
            if !own {
                let line = trim_text(all[i].as_str());
                out.push(line);
                assert(text::texts(out@) =~= before.push(line@));
                assert(before.push(line@) =~= head + settings::others(
                    ls.take(i + 1),
                    own_keys(),
                ));
            }
        }
    }
    assert(ls.take(all.len() as int) =~= ls);
    unlines_of(&out)
}

/// The keys are keys, and different ones.
pub proof fn lemma_keys()
    ensures
        settings::is_key("watch_enabled"@),
        settings::is_key("watch"@),
        settings::is_key("auto_restart"@),
        "watch_enabled"@ != "auto_restart"@,
        "watch"@ != "auto_restart"@,
{
    reveal_strlit("watch_enabled");
    reveal_strlit("watch");
    reveal_strlit("auto_restart");
    assert("watch_enabled"@.len() == 13 && "watch"@.len() == 5 && "auto_restart"@.len() == 12);
    assert(settings::is_key("watch_enabled"@)) by {
        let s = "watch_enabled"@;
        assert(s[0] == 'w' && s[12] == 'd');
        assert forall|i: int| 0 <= i < s.len() implies s[i] != '\n' && s[i] != '=' by {}
    }
    assert(settings::is_key("watch"@)) by {
        let s = "watch"@;
        assert(s[0] == 'w' && s[4] == 'h');
        assert forall|i: int| 0 <= i < s.len() implies s[i] != '\n' && s[i] != '=' by {}
    }
    assert(settings::is_key("auto_restart"@)) by {
        let s = "auto_restart"@;
        assert(s[0] == 'a' && s[11] == 't');
        assert forall|i: int| 0 <= i < s.len() implies s[i] != '\n' && s[i] != '=' by {}
    }
}

proof fn lemma_settings_lines(old: Seq<char>, s: Settings)
    ensures
        lines::lines(settings_file(old, s)) == settings_lines(old, s),
        settings::entry(settings_lines(old, s)[0]) is None,
        settings::entry(settings_lines(old, s)[1]) == Some(
            ("watch_enabled"@, settings::bit(s.watch_enabled)),
        ),
        settings::entry(settings_lines(old, s)[2]) == Some(
            ("auto_restart"@, settings::bit(s.auto_restart)),
        ),
{
    let all = settings_lines(old, s);
    lemma_keys();
    settings::lemma_header();
    settings::lemma_bit(s.watch_enabled);
    settings::lemma_bit(s.auto_restart);
    settings::law_line_reads_back("watch_enabled"@, settings::bit(s.watch_enabled));
    settings::law_line_reads_back("auto_restart"@, settings::bit(s.auto_restart));
    lines::lemma_lines_no_feed(old);
    let rest = settings::others(lines::lines(old), own_keys());
    settings::lemma_others(lines::lines(old), own_keys(), own_keys());
    assert forall|i: int| 0 <= i < all.len() implies !(#[trigger] all[i]).contains('\n')
        && lines::strip_cr(all[i]) == all[i] by {
        if i >= 3 {
            assert(all[i] == rest[i - 3]);
        }
    }
    lines::law_lines_read_back(all);
    assert(lines::lines(settings_file(old, s)) =~= all);
}

/// What the lines of the watchdog's own file say: its own lines, or else those of
/// others.
proof fn lemma_settings_choice(old: Seq<char>, s: Settings, keys: spec_fn(Seq<char>) -> bool)
    ensures
        settings::last_choice(settings_lines(old, s), keys) == match settings::last_choice(
            settings::others(lines::lines(old), own_keys()),
            keys,
        ) {
            Some(x) => Some(x),
            None => if keys("auto_restart"@) {
                Some(s.auto_restart)
            } else if keys("watch_enabled"@) {
                Some(s.watch_enabled)
            } else {
                None
            },
        },
{
    let all = settings_lines(old, s);
    let rest = settings::others(lines::lines(old), own_keys());
    let head = seq![
        HEADER@,
        settings::line_for("watch_enabled"@, settings::bit(s.watch_enabled)),
        settings::line_for("auto_restart"@, settings::bit(s.auto_restart)),
    ];
    lemma_settings_lines(old, s);
    settings::lemma_bit(s.watch_enabled);
    settings::lemma_bit(s.auto_restart);
    settings::lemma_last_choice_of_both(head, rest, keys);
    assert(all[0] == head[0] && all[1] == head[1] && all[2] == head[2]);
    let two = head.drop_last();
    let one = two.drop_last();
    assert(head.last() == head[2]);
    assert(two.last() == head[1]);
    assert(one.last() == head[0]);
    assert(one.drop_last().len() == 0);
    assert(settings::last_choice(one.drop_last(), keys) is None);
    assert(settings::last_choice(one, keys) is None);
    assert(settings::last_choice(two, keys) == if keys("watch_enabled"@) {
        Some(s.watch_enabled)
    } else {
        None
    });
    assert(all == head + rest);
}

/// What was saved reads back, whatever the file held before: restarts as they were
/// chosen, and watching as it was chosen or as restarts need it.
pub proof fn law_saved_settings_read_back(old: Seq<char>, s: Settings)
    ensures
        settings_in(Some(settings_file(old, s))) == (Settings {
            watch_enabled: s.watch_enabled || s.auto_restart,
            auto_restart: s.auto_restart,
        }),
{
    let rest = settings::others(lines::lines(old), own_keys());
    lemma_keys();
    lemma_settings_lines(old, s);
    lines::lemma_lines_no_feed(old);
    settings::lemma_others(lines::lines(old), own_keys(), own_keys());
    lemma_no_choice(rest, watch_keys());
    lemma_no_choice(rest, restart_keys());
    lemma_settings_choice(old, s, watch_keys());
    lemma_settings_choice(old, s, restart_keys());
}

proof fn lemma_no_choice(ls: Seq<Seq<char>>, keys: spec_fn(Seq<char>) -> bool)
    requires
        forall|k: Seq<char>| #[trigger] keys(k) ==> own_keys()(k),
        forall|i: int|
            0 <= i < ls.len() ==> settings::entry(#[trigger] ls[i]) is Some && !own_keys()(
                (settings::entry(ls[i])->0).0,
            ),
    ensures
        settings::last_choice(ls, keys) is None,
    decreases ls.len(),
{
    if ls.len() > 0 {
        assert(!own_keys()((settings::entry(ls[ls.len() - 1])->0).0));
        assert forall|i: int| 0 <= i < ls.drop_last().len() implies settings::entry(
            #[trigger] ls.drop_last()[i],
        ) is Some && !own_keys()((settings::entry(ls.drop_last()[i])->0).0) by {
            assert(ls.drop_last()[i] == ls[i]);
        }
        lemma_no_choice(ls.drop_last(), keys);
    }
}

/// Saving changes nothing that the file says under keys of others.
pub proof fn law_saving_keeps_other_keys(
    old: Seq<char>,
    s: Settings,
    keys: spec_fn(Seq<char>) -> bool,
)
    requires
        forall|k: Seq<char>| own_keys()(k) ==> !(#[trigger] keys(k)),
    ensures
        settings::choice(Some(settings_file(old, s)), keys) == settings::choice(Some(old), keys),
{
    lemma_settings_lines(old, s);
    lemma_settings_choice(old, s, keys);
    lines::lemma_lines_no_feed(old);
    settings::lemma_others(lines::lines(old), own_keys(), keys);
    assert(own_keys()("auto_restart"@) && own_keys()("watch_enabled"@));
    assert(!keys("auto_restart"@) && !keys("watch_enabled"@));
}

/// Saving what is saved already changes nothing: the second file is the first.
pub proof fn law_saving_twice_is_saving_once(old: Seq<char>, s: Settings, t: Settings)
    ensures
        settings_file(settings_file(old, s), t) == settings_file(old, t),
{
    let all = settings_lines(old, s);
    let rest = settings::others(lines::lines(old), own_keys());
    lemma_keys();
    lemma_settings_lines(old, s);
    lines::lemma_lines_no_feed(old);
    settings::lemma_others(lines::lines(old), own_keys(), own_keys());
    let head = all.take(3);
    assert(all =~= head + rest);
    assert(settings::others(head, own_keys()) =~= seq![]) by {
        assert(head.last() == all[2]);
        assert(head.drop_last().last() == all[1]);
        assert(head.drop_last().drop_last().last() == all[0]);
        assert(head.drop_last().drop_last().drop_last().len() == 0);
        reveal_with_fuel(settings::others, 4);
    }
    lemma_others_again(head, rest);
    assert(settings::others(all, own_keys()) =~= rest);
}

proof fn lemma_others_again(head: Seq<Seq<char>>, rest: Seq<Seq<char>>)
    requires
        settings::others(head, own_keys()) == Seq::<Seq<char>>::empty(),
        forall|i: int|
            0 <= i < rest.len() ==> settings::entry(#[trigger] rest[i]) is Some && !own_keys()(
                (settings::entry(rest[i])->0).0,
            ) && text::trim(rest[i]) == rest[i],
    ensures
        settings::others(head + rest, own_keys()) == rest,
    decreases rest.len(),
{
    if rest.len() == 0 {
        assert(head + rest =~= head);
        assert(rest =~= seq![]);
    } else {
        let l = rest[rest.len() - 1];
        let before = rest.drop_last();
        assert forall|i: int| 0 <= i < before.len() implies settings::entry(
            #[trigger] before[i],
        ) is Some && !own_keys()((settings::entry(before[i])->0).0) && text::trim(before[i])
            == before[i] by {
            assert(before[i] == rest[i]);
        }
        lemma_others_again(head, before);
        assert((head + rest).drop_last() =~= head + before);
        assert((head + rest).last() == l);
        assert(settings::others(head + rest, own_keys()) =~= before.push(l));
        assert(before.push(l) =~= rest);
    }
}

// ---------------------------------------------------------------------------
// Hangs

/// What hangs.
#[derive(Debug, Clone, Copy, PartialEq, Eq, Structural)]
pub enum HangKind {
    StuckQueue { jobs: usize },
    PendingTooLong { state: ServiceState },
}

/// What to do about a hang.
#[derive(Debug, Clone, Copy, PartialEq, Eq, Structural)]
pub enum Action {
    /// Warn of it, once.
    Warn,
    /// Restart the service.
    AutoRestart,
}

/// A hang in words.
pub open spec fn hang_summary(h: HangKind) -> Seq<char> {
    match h {
        HangKind::StuckQueue { jobs } => "Похоже на зависание очереди: "@ + number::decimal(
            jobs as nat,
        ) + " заданий без прогресса дольше "@ + number::decimal(
            (QUEUE_STUCK_AFTER / SECOND) as nat,
        ) + " с."@,
        HangKind::PendingTooLong { state } => "Служба печати слишком долго в состоянии «"@
            + spooler::state_ru(state) + "» ("@ + number::decimal(
            (PENDING_STUCK_AFTER / SECOND) as nat,
        ) + " с)."@,
    }
}

impl HangKind {
    /// The hang in words.
    pub fn summary_ru(self) -> (r: String)
        ensures
            r@ == hang_summary(self),
    {
        match self {
            Self::StuckQueue { jobs } => {
                let mut s = "Похоже на зависание очереди: ".to_owned();
                push_decimal(&mut s, jobs as u128);
                s.append(" заданий без прогресса дольше ");
                push_decimal(&mut s, QUEUE_STUCK_AFTER / SECOND);
                s.append(" с.");
                s
            },
            Self::PendingTooLong { state } => {
                let mut s = "Служба печати слишком долго в состоянии «".to_owned();
                s.append(state.as_ru_str());
                s.append("» (");
                push_decimal(&mut s, PENDING_STUCK_AFTER / SECOND);
                s.append(" с).");
                s
            },
        }
    }
}

/// A printer and the number of its jobs.
pub open spec fn printer_mark(p: queue::PrinterView) -> Seq<char> {
    p.name + ":"@ + number::decimal(p.jobs)
}

/// All printers and the number of their jobs.
pub open spec fn printer_marks(ps: Seq<queue::PrinterView>) -> Seq<Seq<char>> {
    ps.map_values(|p: queue::PrinterView| printer_mark(p))
}

/// Who has how many jobs, as one text: the marks of the printers in order.
pub open spec fn jobs_mark(ps: Seq<queue::PrinterView>) -> Seq<char> {
    lines::join(printer_marks(ps).sort_by(order::lex()), "|"@)
}

/// One hang, and no other, as a text.
pub open spec fn episode(h: HangKind, ps: Seq<queue::PrinterView>) -> Seq<char> {
    match h {
        HangKind::StuckQueue { jobs } => "q:"@ + jobs_mark(ps),
        HangKind::PendingTooLong { state } => "p:"@ + spooler::state_ru(state),
    }
}

/// Who has how many jobs, as one text.
pub fn fingerprint(printers: &[PrinterEntry]) -> (r: String)
    ensures
        r@ == jobs_mark(queue::views(printers@)),
{
    let ghost marks = printer_marks(queue::views(printers@));
    let mut parts: Vec<String> = Vec::new();
    for i in 0..printers.len()
        invariant
            marks == printer_marks(queue::views(printers@)),
            text::texts(parts@) == marks.take(i as int),
    {
        let ghost before = text::texts(parts@);
        let mut s = printers[i].name.as_str().to_owned();
        s.append(":");
        push_decimal(&mut s, printers[i].jobs as u128);
        parts.push(s);
        proof {
            assert(text::texts(parts@) =~= before.push(s@));
            assert(marks[i as int] == s@);
            assert(marks.take(i + 1) =~= before.push(marks[i as int]));
        }
    }
    assert(marks.take(printers.len() as int) =~= marks);
    join_texts(sort_texts(&parts).as_slice(), "|")
}

/// One hang, and no other, as a text.
pub fn hang_key(hang: &HangKind, printers: &[PrinterEntry]) -> (r: String)
    ensures
        r@ == episode(*hang, queue::views(printers@)),
{
    match hang {
        HangKind::StuckQueue { .. } => {
            let mut s = "q:".to_owned();
            s.append(fingerprint(printers).as_str());
            s
        },
        HangKind::PendingTooLong { state } => {
            let mut s = "p:".to_owned();
            s.append(state.as_ru_str());
            s
        },
    }
}

/// It makes no difference in which order the printers come.
pub proof fn law_fingerprint_ignores_order(
    a: Seq<queue::PrinterView>,
    b: Seq<queue::PrinterView>,
)
    requires
        a.to_multiset() == b.to_multiset(),
    ensures
        jobs_mark(a) == jobs_mark(b),
{
    order::lemma_map_keeps_multiset(a, b, |p: queue::PrinterView| printer_mark(p));
    order::law_sort_ignores_order(printer_marks(a), printer_marks(b));
}

// ---------------------------------------------------------------------------
// Watching

/// What has been seen so far.
#[derive(Debug)]
pub struct Watchdog {
    pub settings: Settings,
    /// The jobs that were seen last.
    pub queue_fp: Option<String>,
    /// Since when they have been the same.
    pub queue_unchanged_since: Option<Nanos>,
    /// Since when the service has been on its way.
    pub pending_since: Option<Nanos>,
    /// When the service was last restarted.
    pub last_auto_restart: Option<Nanos>,
    /// The hang that was last warned of.
    pub warned_fp: Option<String>,
}

/// What has been seen so far, as a value of its own.
pub struct WatchView {
    pub settings: Settings,
    pub queue_fp: Option<Seq<char>>,
    pub queue_unchanged_since: Option<Nanos>,
    pub pending_since: Option<Nanos>,
    pub last_auto_restart: Option<Nanos>,
    pub warned_fp: Option<Seq<char>>,
}

impl View for Watchdog {
    type V = WatchView;

    open spec fn view(&self) -> WatchView {
        WatchView {
            settings: self.settings,
            queue_fp: text::opt_text(self.queue_fp),
            queue_unchanged_since: self.queue_unchanged_since,
            pending_since: self.pending_since,
            last_auto_restart: self.last_auto_restart,
            warned_fp: text::opt_text(self.warned_fp),
        }
    }
}

/// Nothing has been seen.
pub open spec fn unseen(w: WatchView) -> WatchView {
    WatchView {
        queue_fp: None,
        queue_unchanged_since: None,
        pending_since: None,
        warned_fp: None,
        ..w
    }
}

/// Since when the service has been on its way, once its state was seen.
pub open spec fn pending_seen(w: WatchView, now: Nanos, state: ServiceState) -> Option<Nanos> {
    if !spooler::pending(state) {
        None
    } else if w.pending_since is Some {
        w.pending_since
    } else {
        Some(now)
    }
}

/// The service has been on its way for too long.
pub open spec fn pending_too_long(w: WatchView, now: Nanos, state: ServiceState) -> bool {
    spooler::pending(state) && w.pending_since is Some && clock::elapsed(now, w.pending_since->0)
        >= PENDING_STUCK_AFTER
}

/// What is seen, and whether it is a hang.
pub open spec fn detected(
    w: WatchView,
    now: Nanos,
    state: ServiceState,
    ps: Seq<queue::PrinterView>,
) -> (WatchView, Option<HangKind>) {
    let seen = WatchView { pending_since: pending_seen(w, now, state), ..w };
    let jobs = queue::total_jobs(ps);
    let mark = jobs_mark(ps);
    let since = match w.queue_unchanged_since {
        Some(t) => t,
        None => now,
    };
    if pending_too_long(w, now, state) {
        (w, Some(HangKind::PendingTooLong { state }))
    } else if jobs == 0 {
        (
            WatchView {
                queue_fp: Some(mark),
                queue_unchanged_since: None,
                warned_fp: None,
                ..seen
            },
            None,
        )
    } else if w.queue_fp == Some(mark) {
        (
            WatchView { queue_unchanged_since: Some(since), ..seen },
            if clock::elapsed(now, since) >= QUEUE_STUCK_AFTER {
                Some(HangKind::StuckQueue { jobs: jobs as usize })
            } else {
                None
            },
        )
    } else {
        (
            WatchView {
                queue_fp: Some(mark),
                queue_unchanged_since: Some(now),
                warned_fp: None,
                ..seen
            },
            None,
        )
    }
}

/// The last restart is too short a time ago for another one.
pub open spec fn cooling(w: WatchView, now: Nanos) -> bool {
    w.last_auto_restart is Some && clock::elapsed(now, w.last_auto_restart->0)
        < AUTO_RESTART_COOLDOWN
}

/// What is seen, and what is to be done about it.
pub open spec fn observed(
    w: WatchView,
    now: Nanos,
    state: ServiceState,
    ps: Seq<queue::PrinterView>,
) -> (WatchView, Option<(HangKind, Action)>) {
    let (seen, hang) = detected(w, now, state, ps);
    if !w.settings.watch_enabled {
        (unseen(w), None)
    } else if hang is None {
        (seen, None)
    } else if w.settings.auto_restart {
        if cooling(w, now) {
            (seen, None)
        } else {
            (seen, Some((hang->0, Action::AutoRestart)))
        }
    } else if seen.warned_fp == Some(episode(hang->0, ps)) {
        (seen, None)
    } else {
        (
            WatchView { warned_fp: Some(episode(hang->0, ps)), ..seen },
            Some((hang->0, Action::Warn)),
        )
    }
}

fn same_as(o: &Option<String>, s: &str) -> (r: bool)
    ensures
        r == (text::opt_text(*o) == Some(s@)),
{
    match o {
        Some(t) => text::same(t.as_str(), s),
        None => false,
    }
}

impl Watchdog {
    /// A watchdog that has seen nothing, with the settings of the file.
    pub fn load(file: Option<&str>) -> (r: Self)
        ensures
            r@ == (WatchView {
                settings: settings_in(text::opt_str(file)),
                queue_fp: None,
                queue_unchanged_since: None,
                pending_since: None,
                last_auto_restart: None,
                warned_fp: None,
            }),
    {
        Watchdog {
            settings: load_settings(file),
            queue_fp: None,
            queue_unchanged_since: None,
            pending_since: None,
            last_auto_restart: None,
            warned_fp: None,
        }
    }

    /// The settings file that holds the settings, and of the file `old` what belongs
    /// to others.
    pub fn save_settings(&self, old: &str) -> (r: String)
        ensures
            r@ == settings_file(old@, self@.settings),
    {
        render_settings(old, &self.settings)
    }

    /// Forgets what was seen.
    pub fn reset_tracking(&mut self)
        ensures
            final(self)@ == unseen(old(self)@),
    {
        self.queue_fp = None;
        self.queue_unchanged_since = None;
        self.pending_since = None;
        self.warned_fp = None;
    }

    /// Takes note that the service was restarted, by whomever, so that it is not
    /// restarted over and over.
    pub fn note_restart_done(&mut self, now: Nanos)
        ensures
            final(self)@ == unseen(
                (WatchView { last_auto_restart: Some(now), ..old(self)@ }),
            ),
    {
        self.last_auto_restart = Some(now);
        self.reset_tracking();
    }

    /// Takes in the state of the service and of its printers at `now`, and says what
    /// is to be done about it.
    pub fn observe(&mut self, now: Nanos, state: ServiceState, printers: &[PrinterEntry]) -> (r:
        Option<(HangKind, Action)>)
        requires
            old(self)@.settings.watch_enabled && !pending_too_long(old(self)@, now, state)
                ==> queue::total_jobs(queue::views(printers@)) <= usize::MAX,
        ensures
            (final(self)@, r) == observed(old(self)@, now, state, queue::views(printers@)),
    {
        if !self.settings.watch_enabled {
            self.reset_tracking();
            return None;
        }
        let hang = match self.detect_hang(now, state, printers) {
            Some(h) => h,
            None => {
                return None;
            },
        };
        let key = hang_key(&hang, printers);
        if self.settings.auto_restart {
            if let Some(last) = self.last_auto_restart {
                if time_between(now, last) < AUTO_RESTART_COOLDOWN {
                    return None;
                }
            }
            Some((hang, Action::AutoRestart))
        } else {
            if same_as(&self.warned_fp, key.as_str()) {
                return None;
            }
            self.warned_fp = Some(key);
            Some((hang, Action::Warn))
        }
    }

    fn detect_hang(&mut self, now: Nanos, state: ServiceState, printers: &[PrinterEntry]) -> (r:
        Option<HangKind>)
        requires
            !pending_too_long(old(self)@, now, state) ==> queue::total_jobs(
                queue::views(printers@),
            ) <= usize::MAX,
        ensures
            (final(self)@, r) == detected(old(self)@, now, state, queue::views(printers@)),
    {
        if state.is_pending() {
            match self.pending_since {
                Some(since) => {
                    if time_between(now, since) >= PENDING_STUCK_AFTER {
                        return Some(HangKind::PendingTooLong { state });
                    }
                },
                None => {
                    self.pending_since = Some(now);
                },
            }
        } else {
            self.pending_since = None;
        }
        let total = queue::sum_jobs(printers);
        let fp = fingerprint(printers);
        if total == 0 {
            self.queue_fp = Some(fp);
            self.queue_unchanged_since = None;
            self.warned_fp = None;
            return None;
        }
        if same_as(&self.queue_fp, fp.as_str()) {
            let since = match self.queue_unchanged_since {
                Some(t) => t,
                None => now,
            };
            self.queue_unchanged_since = Some(since);
            if time_between(now, since) >= QUEUE_STUCK_AFTER {
                return Some(HangKind::StuckQueue { jobs: total });
            }
        } else {
            self.queue_fp = Some(fp);
            self.queue_unchanged_since = Some(now);
            self.warned_fp = None;
        }
        None
    }
}

// ---------------------------------------------------------------------------
// What holds of all watching

/// Who does not watch does nothing and remembers nothing.
pub proof fn law_no_watch_no_action(
    w: WatchView,
    now: Nanos,
    state: ServiceState,
    ps: Seq<queue::PrinterView>,
)
    requires
        !w.settings.watch_enabled,
    ensures
        observed(w, now, state, ps).1 is None,
        observed(w, now, state, ps).0 == unseen(w),
{
}

/// The service is restarted only where restarts are switched on, and where they are
/// there are no warnings.
pub proof fn law_restart_only_where_switched_on(
    w: WatchView,
    now: Nanos,
    state: ServiceState,
    ps: Seq<queue::PrinterView>,
)
    requires
        observed(w, now, state, ps).1 is Some,
    ensures
        w.settings.watch_enabled,
        w.settings.auto_restart <==> (observed(w, now, state, ps).1->0).1 is AutoRestart,
{
}

/// After a restart the service is not restarted again before the time is over,
/// however often one looks in between.
pub proof fn law_restarts_keep_their_distance(
    w: WatchView,
    now: Nanos,
    state: ServiceState,
    ps: Seq<queue::PrinterView>,
)
    ensures
        observed(w, now, state, ps).0.last_auto_restart == w.last_auto_restart,
        observed(w, now, state, ps).0.settings == w.settings,
        observed(w, now, state, ps).1 is Some && (observed(w, now, state, ps).1->0).1 is AutoRestart
            && w.last_auto_restart is Some ==> clock::elapsed(now, w.last_auto_restart->0)
            >= AUTO_RESTART_COOLDOWN,
{
}

/// No hang is warned of twice in a row: the next warning is about another one.
pub proof fn law_warns_once(
    w: WatchView,
    now: Nanos,
    state: ServiceState,
    ps: Seq<queue::PrinterView>,
    later: Nanos,
    next_state: ServiceState,
    next_ps: Seq<queue::PrinterView>,
)
    requires
        observed(w, now, state, ps).1 is Some,
        (observed(w, now, state, ps).1->0).1 is Warn,
        observed(observed(w, now, state, ps).0, later, next_state, next_ps).1 is Some,
    ensures
        episode(
            (observed(observed(w, now, state, ps).0, later, next_state, next_ps).1->0).0,
            next_ps,
        ) != episode((observed(w, now, state, ps).1->0).0, ps),
{
}

/// What one look at the service and its printers brings.
pub struct Look {
    pub now: Nanos,
    pub state: ServiceState,
    pub printers: Seq<queue::PrinterView>,
}

/// What has been seen after all of the looks.
pub open spec fn seen_all(w: WatchView, looks: Seq<Look>) -> WatchView
    decreases looks.len(),
{
    if looks.len() == 0 {
        w
    } else {
        let l = looks.last();
        observed(seen_all(w, looks.drop_last()), l.now, l.state, l.printers).0
    }
}

/// Once a stuck queue was warned of, nothing is said as long as its jobs stay as they
/// are, however often and however late one looks.
pub proof fn law_one_warning_for_one_hang(
    w: WatchView,
    ps: Seq<queue::PrinterView>,
    jobs: usize,
    looks: Seq<Look>,
)
    requires
        w.settings.watch_enabled && !w.settings.auto_restart,
        w.queue_fp == Some(jobs_mark(ps)),
        w.warned_fp == Some(episode(HangKind::StuckQueue { jobs }, ps)),
        forall|i: int|
            0 <= i < looks.len() ==> jobs_mark((#[trigger] looks[i]).printers) == jobs_mark(ps)
                && queue::total_jobs(looks[i].printers) > 0 && !spooler::pending(looks[i].state),
    ensures
        seen_all(w, looks).settings == w.settings,
        seen_all(w, looks).queue_fp == w.queue_fp,
        seen_all(w, looks).warned_fp == w.warned_fp,
        forall|i: int|
            0 <= i < looks.len() ==> observed(
                seen_all(w, #[trigger] looks.take(i)),
                looks[i].now,
                looks[i].state,
                looks[i].printers,
            ).1 is None,
    decreases looks.len(),
{
    if looks.len() > 0 {
        let before = looks.drop_last();
        law_one_warning_for_one_hang(w, ps, jobs, before);
        let l = looks.last();
        assert(l == looks[looks.len() - 1]);
        assert(observed(seen_all(w, before), l.now, l.state, l.printers).1 is None);
        assert forall|i: int| 0 <= i < looks.len() implies observed(
            seen_all(w, #[trigger] looks.take(i)),
            looks[i].now,
            looks[i].state,
            looks[i].printers,
        ).1 is None by {
            if i < looks.len() - 1 {
                assert(before.take(i) =~= looks.take(i));
                assert(before[i] == looks[i]);
            } else {
                assert(before =~= looks.take(i));
            }
        }
    }
}

/// A stuck queue is one whose jobs were the same, and some, for the whole time; a
/// service that takes too long has been on its way for the whole time.
pub proof fn law_hang_takes_its_time(
    w: WatchView,
    now: Nanos,
    state: ServiceState,
    ps: Seq<queue::PrinterView>,
)
    requires
        observed(w, now, state, ps).1 is Some,
    ensures
        match (observed(w, now, state, ps).1->0).0 {
            HangKind::StuckQueue { jobs } => w.queue_fp == Some(jobs_mark(ps)) && queue::total_jobs(
                ps,
            ) > 0 && w.queue_unchanged_since is Some && clock::elapsed(
                now,
                w.queue_unchanged_since->0,
            ) >= QUEUE_STUCK_AFTER,
            HangKind::PendingTooLong { state: s } => s == state && spooler::pending(state)
                && w.pending_since is Some && clock::elapsed(now, w.pending_since->0)
                >= PENDING_STUCK_AFTER,
        },
{
}

/// A service that has been on its way for a minute is a hang, whatever its queue
/// holds. Where restarts are switched on it is restarted, unless that was done less
/// than three minutes ago; where they are not it is warned of, unless it was already.
pub proof fn law_pending_service_is_acted_on(
    w: WatchView,
    now: Nanos,
    state: ServiceState,
    ps: Seq<queue::PrinterView>,
)
    requires
        w.settings.watch_enabled,
        state == ServiceState::StartPending || state == ServiceState::StopPending || state
            == ServiceState::ContinuePending || state == ServiceState::PausePending,
        w.pending_since is Some,
        now >= w.pending_since->0 + 60_000_000_000,
    ensures
        w.settings.auto_restart && (w.last_auto_restart is None || now >= w.last_auto_restart->0
            + 180_000_000_000) ==> observed(w, now, state, ps).1 == Some(
            (HangKind::PendingTooLong { state }, Action::AutoRestart),
        ),
        w.settings.auto_restart && w.last_auto_restart is Some && now < w.last_auto_restart->0
            + 180_000_000_000 ==> observed(w, now, state, ps).1 is None,
        !w.settings.auto_restart && w.warned_fp != Some("p:"@ + spooler::state_ru(state))
            ==> observed(w, now, state, ps).1 == Some(
            (HangKind::PendingTooLong { state }, Action::Warn),
        ),
        !w.settings.auto_restart && w.warned_fp == Some("p:"@ + spooler::state_ru(state))
            ==> observed(w, now, state, ps).1 is None,
{
}

/// Jobs that have been the same for a minute and a half, and some, are a hang, unless
/// the service itself takes too long. Where restarts are switched on the service is
/// restarted, unless that was done less than three minutes ago; where they are not
/// the hang is warned of, unless it was already.
pub proof fn law_stuck_queue_is_acted_on(
    w: WatchView,
    now: Nanos,
    state: ServiceState,
    ps: Seq<queue::PrinterView>,
)
    requires
        w.settings.watch_enabled,
        !spooler::pending(state) || w.pending_since is None || now < w.pending_since->0
            + 60_000_000_000,
        0 < queue::total_jobs(ps) <= usize::MAX,
        w.queue_fp == Some(jobs_mark(ps)),
        w.queue_unchanged_since is Some,
        now >= w.queue_unchanged_since->0 + 90_000_000_000,
    ensures
        w.settings.auto_restart && (w.last_auto_restart is None || now >= w.last_auto_restart->0
            + 180_000_000_000) ==> observed(w, now, state, ps).1 == Some(
            (HangKind::StuckQueue { jobs: queue::total_jobs(ps) as usize }, Action::AutoRestart),
        ),
        w.settings.auto_restart && w.last_auto_restart is Some && now < w.last_auto_restart->0
            + 180_000_000_000 ==> observed(w, now, state, ps).1 is None,
        !w.settings.auto_restart && w.warned_fp != Some("q:"@ + jobs_mark(ps)) ==> observed(
            w,
            now,
            state,
            ps,
        ).1 == Some(
            (HangKind::StuckQueue { jobs: queue::total_jobs(ps) as usize }, Action::Warn),
        ),
        !w.settings.auto_restart && w.warned_fp == Some("q:"@ + jobs_mark(ps)) ==> observed(
            w,
            now,
            state,
            ps,
        ).1 is None,
{
}

/// There is no other hang: nothing is done as long as the service is on its way for
/// less than a minute and its jobs are none, or others than at the last look, or the
/// same for less than a minute and a half.
pub proof fn law_nothing_is_done_without_a_hang(
    w: WatchView,
    now: Nanos,
    state: ServiceState,
    ps: Seq<queue::PrinterView>,
)
    requires
        !(state == ServiceState::StartPending || state == ServiceState::StopPending || state
            == ServiceState::ContinuePending || state == ServiceState::PausePending)
            || w.pending_since is None || now < w.pending_since->0 + 60_000_000_000,
        queue::total_jobs(ps) == 0 || w.queue_fp != Some(jobs_mark(ps))
            || w.queue_unchanged_since is None || now < w.queue_unchanged_since->0
            + 90_000_000_000,
    ensures
        observed(w, now, state, ps).1 is None,
{
}

/// What a look leaves behind while somebody watches: since when the service has been
/// on its way, and since when its jobs have been the same. Jobs that are gone or have
/// changed begin anew, and so may be warned of again.
pub proof fn law_looks_are_remembered(
    w: WatchView,
    now: Nanos,
    state: ServiceState,
    ps: Seq<queue::PrinterView>,
)
    requires
        w.settings.watch_enabled,
    ensures
        ({
            let v = observed(w, now, state, ps).0;
            let on_its_way = state == ServiceState::StartPending || state
                == ServiceState::StopPending || state == ServiceState::ContinuePending || state
                == ServiceState::PausePending;
            let too_long = on_its_way && w.pending_since is Some && now >= w.pending_since->0
                + 60_000_000_000;
            &&& !on_its_way ==> v.pending_since is None
            &&& on_its_way && w.pending_since is None ==> v.pending_since == Some(now)
            &&& on_its_way && w.pending_since is Some ==> v.pending_since == w.pending_since
            &&& too_long ==> v.queue_fp == w.queue_fp && v.queue_unchanged_since
                == w.queue_unchanged_since
            &&& !too_long ==> v.queue_fp == Some(jobs_mark(ps))
            &&& !too_long && queue::total_jobs(ps) == 0 ==> v.queue_unchanged_since is None
                && v.warned_fp is None
            &&& !too_long && queue::total_jobs(ps) > 0 && w.queue_fp != Some(jobs_mark(ps))
                ==> v.queue_unchanged_since == Some(now) && v.warned_fp is None
            &&& !too_long && queue::total_jobs(ps) > 0 && w.queue_fp == Some(jobs_mark(ps))
                && w.queue_unchanged_since is Some ==> v.queue_unchanged_since
                == w.queue_unchanged_since
            &&& !too_long && queue::total_jobs(ps) > 0 && w.queue_fp == Some(jobs_mark(ps))
                && w.queue_unchanged_since is None ==> v.queue_unchanged_since == Some(now)
            &&& v.last_auto_restart == w.last_auto_restart
            &&& v.settings == w.settings
        }),
{
}

/// A warning is remembered as the hang that it was about, and nothing else is.
pub proof fn law_warnings_are_remembered(
    w: WatchView,
    now: Nanos,
    state: ServiceState,
    ps: Seq<queue::PrinterView>,
)
    requires
        w.settings.watch_enabled,
    ensures
        ({
            let (v, r) = observed(w, now, state, ps);
            &&& r is Some && (r->0).1 is Warn && (r->0).0 is StuckQueue ==> v.warned_fp == Some(
                "q:"@ + jobs_mark(ps),
            )
            &&& r is Some && (r->0).1 is Warn && (r->0).0 is PendingTooLong ==> v.warned_fp
                == Some("p:"@ + spooler::state_ru(state))
            &&& r is None || (r->0).1 is AutoRestart ==> v.warned_fp == w.warned_fp
                || v.warned_fp is None
        }),
{
}

/// A service that was seen on its way at one look and at every later one, is acted on
/// at the first look that comes a minute after, however the looks lie in between.
pub proof fn law_service_that_stays_on_its_way_is_acted_on(
    w: WatchView,
    looks: Seq<Look>,
    now: Nanos,
    state: ServiceState,
    ps: Seq<queue::PrinterView>,
)
    requires
        w.settings.watch_enabled && w.settings.auto_restart,
        w.pending_since is None,
        w.last_auto_restart is None,
        looks.len() > 0,
        forall|i: int|
            0 <= i < looks.len() ==> {
                let s = (#[trigger] looks[i]).state;
                s == ServiceState::StartPending || s == ServiceState::StopPending || s
                    == ServiceState::ContinuePending || s == ServiceState::PausePending
            },
        state == ServiceState::StartPending || state == ServiceState::StopPending || state
            == ServiceState::ContinuePending || state == ServiceState::PausePending,
        now >= looks[0].now + 60_000_000_000,
    ensures
        seen_all(w, looks).pending_since == Some(looks[0].now),
        observed(seen_all(w, looks), now, state, ps).1 == Some(
            (HangKind::PendingTooLong { state }, Action::AutoRestart),
        ),
    decreases looks.len(),
{
    let before = looks.drop_last();
    let l = looks.last();
    assert(l == looks[looks.len() - 1]);
    if before.len() > 0 {
        assert forall|i: int| 0 <= i < before.len() implies {
            let s = (#[trigger] before[i]).state;
            s == ServiceState::StartPending || s == ServiceState::StopPending || s
                == ServiceState::ContinuePending || s == ServiceState::PausePending
        } by {
            assert(before[i] == looks[i]);
        }
        law_service_that_stays_on_its_way_is_acted_on(w, before, now, state, ps);
        lemma_settings_stay(w, before);
        law_looks_are_remembered(seen_all(w, before), l.now, l.state, l.printers);
    } else {
        assert(seen_all(w, before) == w);
        law_looks_are_remembered(w, l.now, l.state, l.printers);
    }
    lemma_settings_stay(w, looks);
    law_pending_service_is_acted_on(seen_all(w, looks), now, state, ps);
}

proof fn lemma_settings_stay(w: WatchView, looks: Seq<Look>)
    ensures
        seen_all(w, looks).settings == w.settings,
        seen_all(w, looks).last_auto_restart == w.last_auto_restart,
    decreases looks.len(),
{
    if looks.len() > 0 {
        lemma_settings_stay(w, looks.drop_last());
    }
}

/// Jobs that were seen at one look, and are the same at every later one, are acted on
/// at the first look that comes a minute and a half after, however the looks lie in
/// between.
pub proof fn law_queue_that_stays_the_same_is_acted_on(
    w: WatchView,
    looks: Seq<Look>,
    now: Nanos,
    state: ServiceState,
    ps: Seq<queue::PrinterView>,
)
    requires
        w.settings.watch_enabled && w.settings.auto_restart,
        w.queue_fp != Some(jobs_mark(ps)),
        w.last_auto_restart is None,
        looks.len() > 0,
        forall|i: int|
            0 <= i < looks.len() ==> {
                let l = #[trigger] looks[i];
                l.state == ServiceState::Running && l.printers == ps
            },
        state == ServiceState::Running,
        0 < queue::total_jobs(ps) <= usize::MAX,
        now >= looks[0].now + 90_000_000_000,
    ensures
        seen_all(w, looks).queue_fp == Some(jobs_mark(ps)),
        seen_all(w, looks).queue_unchanged_since == Some(looks[0].now),
        observed(seen_all(w, looks), now, state, ps).1 == Some(
            (HangKind::StuckQueue { jobs: queue::total_jobs(ps) as usize }, Action::AutoRestart),
        ),
    decreases looks.len(),
{
    let before = looks.drop_last();
    let l = looks.last();
    assert(l == looks[looks.len() - 1]);
    if before.len() > 0 {
        assert forall|i: int| 0 <= i < before.len() implies {
            let m = #[trigger] before[i];
            m.state == ServiceState::Running && m.printers == ps
        } by {
            assert(before[i] == looks[i]);
        }
        law_queue_that_stays_the_same_is_acted_on(w, before, now, state, ps);
        lemma_settings_stay(w, before);
        law_looks_are_remembered(seen_all(w, before), l.now, l.state, l.printers);
    } else {
        assert(seen_all(w, before) == w);
        law_looks_are_remembered(w, l.now, l.state, l.printers);
    }
    lemma_settings_stay(w, looks);
    law_stuck_queue_is_acted_on(seen_all(w, looks), now, state, ps);
}

/// The fingerprint tells apart who has how many jobs: where two are the same, the
/// same printers have the same numbers of jobs, as long as no printer has a vertical
/// bar in its name.
#[verifier::rlimit(30)]
pub proof fn law_fingerprint_tells_jobs_apart(
    a: Seq<queue::PrinterView>,
    b: Seq<queue::PrinterView>,
)
    requires
        a.len() > 0 && b.len() > 0,
        forall|i: int| 0 <= i < a.len() ==> !(#[trigger] a[i]).name.contains('|'),
        forall|i: int| 0 <= i < b.len() ==> !(#[trigger] b[i]).name.contains('|'),
        jobs_mark(a) == jobs_mark(b),
    ensures
        a.map_values(|p: queue::PrinterView| (p.name, p.jobs)).to_multiset() == b.map_values(
            |p: queue::PrinterView| (p.name, p.jobs),
        ).to_multiset(),
{
    let (ma, mb) = (printer_marks(a), printer_marks(b));
    lemma_marks_come_back(a);
    lemma_marks_come_back(b);
    assert(ma.sort_by(order::lex()) == mb.sort_by(order::lex()));
    order::law_lex_is_total_order();
    ma.lemma_sort_by_ensures(order::lex());
    mb.lemma_sort_by_ensures(order::lex());
    assert(ma.to_multiset() == mb.to_multiset());
    let pair = |p: queue::PrinterView| (p.name, p.jobs);
    let read = |m: Seq<char>|
        choose|x: (Seq<char>, nat)| m == #[trigger] (x.0 + ":"@ + number::decimal(x.1));
    order::lemma_map_keeps_multiset(ma, mb, read);
    assert forall|p: queue::PrinterView| read(#[trigger] printer_mark(p)) == pair(p) by {
        let m = printer_mark(p);
        assert(m == pair(p).0 + ":"@ + number::decimal(pair(p).1));
        let x = read(m);
        assert(m == x.0 + ":"@ + number::decimal(x.1));
        lemma_mark_reads_back(x.0, x.1, p.name, p.jobs);
    }
    assert(ma.map_values(read) =~= a.map_values(pair));
    assert(mb.map_values(read) =~= b.map_values(pair));
}

proof fn lemma_mark_reads_back(n: Seq<char>, i: nat, m: Seq<char>, j: nat)
    requires
        n + ":"@ + number::decimal(i) == m + ":"@ + number::decimal(j),
    ensures
        n == m,
        i == j,
{
    reveal_strlit(":");
    number::law_decimal_reads_back(i);
    number::law_decimal_reads_back(j);
    let (di, dj) = (number::decimal(i), number::decimal(j));
    let s = n + ":"@ + di;
    let t = m + ":"@ + dj;
    assert(":"@.len() == 1 && ":"@[0] == ':');
    assert(s.len() == n.len() + 1 + di.len() && t.len() == m.len() + 1 + dj.len());
    if n.len() < m.len() {
        assert(t[m.len() as int] == ':');
        assert(s[m.len() as int] == di[m.len() - n.len() - 1]);
    }
    if m.len() < n.len() {
        assert(s[n.len() as int] == ':');
        assert(t[n.len() as int] == dj[n.len() - m.len() - 1]);
    }
    assert(n =~= s.take(n.len() as int));
    assert(m =~= t.take(m.len() as int));
    assert(di =~= s.skip(n.len() as int + 1));
    assert(dj =~= t.skip(m.len() as int + 1));
}

proof fn lemma_marks_come_back(a: Seq<queue::PrinterView>)
    requires
        a.len() > 0,
        forall|i: int| 0 <= i < a.len() ==> !(#[trigger] a[i]).name.contains('|'),
    ensures
        text::split(jobs_mark(a), text::only('|')) == printer_marks(a).sort_by(order::lex()),
{
    let marks = printer_marks(a);
    let sorted = marks.sort_by(order::lex());
    order::law_lex_is_total_order();
    marks.lemma_sort_by_ensures(order::lex());
    assert(sorted.to_multiset().len() == sorted.len() && marks.to_multiset().len() == marks.len())
        by {
        broadcast use vstd::seq_lib::group_to_multiset_ensures;

    }
    assert forall|i: int| 0 <= i < sorted.len() implies !(#[trigger] sorted[i]).contains('|') by {
        assert(sorted.contains(sorted[i]));
        assert(marks.contains(sorted[i]));
        let k = choose|k: int| 0 <= k < marks.len() && marks[k] == sorted[i];
        let p = a[k];
        assert(sorted[i] == p.name + ":"@ + number::decimal(p.jobs));
        reveal_strlit(":");
        number::law_decimal_reads_back(p.jobs);
        let m = sorted[i];
        assert forall|j: int| 0 <= j < m.len() implies m[j] != '|' by {
            if j < p.name.len() {
                assert(m[j] == p.name[j]);
                assert(p.name.contains(p.name[j]));
            } else if j > p.name.len() {
                assert(m[j] == number::decimal(p.jobs)[j - p.name.len() - 1]);
            }
        }
    }
    reveal_strlit("|");
    assert("|"@ =~= seq!['|']);
    lines::law_joined_texts_split_again(sorted, '|');
}

/// After a restart, by whomever, everything that was seen is forgotten, but not the
/// restart; and for three minutes nothing is restarted again.
pub proof fn law_restart_begins_anew(
    w: WatchView,
    done: Nanos,
    now: Nanos,
    state: ServiceState,
    ps: Seq<queue::PrinterView>,
)
    ensures
        ({
            let v = unseen(WatchView { last_auto_restart: Some(done), ..w });
            &&& v.last_auto_restart == Some(done)
            &&& v.settings == w.settings
            &&& v.queue_fp is None && v.queue_unchanged_since is None
            &&& v.pending_since is None && v.warned_fp is None
            &&& observed(v, now, state, ps).1 is None
        }),
        w.last_auto_restart is Some && w.settings.auto_restart && now < w.last_auto_restart->0
            + 180_000_000_000 ==> observed(w, now, state, ps).1 is None,
{
}

/// A hang is said with what hangs and since when it has been so.
pub proof fn law_hang_says_what_hangs(jobs: usize, state: ServiceState)
    ensures
        hang_summary(HangKind::StuckQueue { jobs }) == "Похоже на зависание очереди: "@
            + number::decimal(jobs as nat) + " заданий без прогресса дольше "@ + number::decimal(90)
            + " с."@,
        hang_summary(HangKind::PendingTooLong { state })
            == "Служба печати слишком долго в состоянии «"@ + spooler::state_ru(state) + "» ("@
            + number::decimal(60) + " с)."@,
{
}

/// Watching is chosen under either of two keys and restarts under one; whoever wants
/// restarts wants watching.
pub proof fn law_settings_are_read_by_their_keys(file: Option<Seq<char>>, k: Seq<char>)
    ensures
        watch_keys()(k) <==> k == "watch_enabled"@ || k == "watch"@,
        restart_keys()(k) <==> k == "auto_restart"@,
        own_keys()(k) <==> watch_keys()(k) || restart_keys()(k),
        settings_in(file).auto_restart == settings::choice(file, restart_keys()),
        settings_in(file).watch_enabled == (settings::choice(file, watch_keys())
            || settings::choice(file, restart_keys())),
        settings_in(None) == (Settings { watch_enabled: false, auto_restart: false }),
{
}

/// What the watchdog knows is what it holds.
pub proof fn law_watchdog_is_seen_as_it_is(w: Watchdog)
    ensures
        w@.settings == w.settings,
        w@.queue_fp == text::opt_text(w.queue_fp),
        w@.queue_unchanged_since == w.queue_unchanged_since,
        w@.pending_since == w.pending_since,
        w@.last_auto_restart == w.last_auto_restart,
        w@.warned_fp == text::opt_text(w.warned_fp),
{
}

/// A saved file begins with its header and the two choices, and goes on with the lines
/// of others.
pub proof fn law_saved_file_holds_both_choices(old: Seq<char>, s: Settings)
    ensures
        settings_file(old, s) == lines::unlines(settings_lines(old, s)),
        settings_lines(old, s)[0] == "# SpoolCtl settings"@,
        settings_lines(old, s)[1] == "watch_enabled"@ + seq!['='] + if s.watch_enabled {
            "1"@
        } else {
            "0"@
        },
        settings_lines(old, s)[2] == "auto_restart"@ + seq!['='] + if s.auto_restart {
            "1"@
        } else {
            "0"@
        },
        settings_lines(old, s).skip(3) == settings::others(lines::lines(old), own_keys()),
{
    assert(settings_lines(old, s).skip(3) =~= settings::others(lines::lines(old), own_keys()));
}

} // verus!
