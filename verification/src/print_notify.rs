//! Telling the user when something is sent to a printer of this computer.

use vstd::prelude::*;
use crate::lines;
use crate::lines::{join_texts, lines_of};
use crate::order;
use crate::order::sorted_set;
use crate::queue;
use crate::queue::PrinterEntry;
use crate::settings;
use crate::settings::{bit_text, means_on, read_entry, upsert_key};
use crate::text;
use crate::watchdog;

verus! {

/// How often the printers are looked at, in milliseconds.
pub const POLL_MS: u32 = 1000;

/// How long to wait before another look at printers where a job was announced, in
/// milliseconds.
pub const RETRY_MS: u32 = 80;

/// The title of the messages.
pub const BALLOON_TITLE: &'static str = "SpoolCtl — печать";

// ---------------------------------------------------------------------------
// Settings

/// What the user has chosen.
#[derive(Debug, Clone, Copy, PartialEq, Eq, Structural)]
pub struct Settings {
    /// Tell when a job is sent to a printer.
    pub notify_print_jobs: bool,
}

impl Default for Settings {
    fn default() -> (r: Self)
        ensures
            r == (Settings { notify_print_jobs: false }),
    {
        Settings { notify_print_jobs: false }
    }
}

/// The key under which the choice is saved.
pub const NOTIFY_KEY: &'static str = "notify_print_jobs";

/// The keys under which the choice is read.
pub open spec fn notify_keys() -> spec_fn(Seq<char>) -> bool {
    |k: Seq<char>| k == "notify_print_jobs"@ || k == "notify_print"@ || k == "print_notify"@
}

/// What a settings file says.
pub open spec fn settings_in(file: Option<Seq<char>>) -> Settings {
    Settings { notify_print_jobs: settings::choice(file, notify_keys()) }
}

/// The settings file `old` with the choice `s` in it.
pub open spec fn settings_file(old: Option<Seq<char>>, s: Settings) -> Seq<char> {
    settings::upserted(old, NOTIFY_KEY@, settings::bit(s.notify_print_jobs))
}

/// Reads the settings file; a file that cannot be read is `None`.
pub fn load_settings(file: Option<&str>) -> (r: Settings)
    ensures
        r == settings_in(text::opt_str(file)),
{
    let mut notify = false;
    if let Some(t) = file {
        let all = lines_of(t);
        let ghost ls = lines::lines(t@);
        assert(ls.take(0).len() == 0);
        for i in 0..all.len()
            invariant
                text::texts(all@) == ls,
                notify == (settings::last_choice(ls.take(i as int), notify_keys()) == Some(true)),
        {
            assert(ls[i as int] == all@[i as int]@);
            assert(ls.take(i + 1).drop_last() =~= ls.take(i as int));
            if let Some((k, v)) = read_entry(all[i].as_str()) {
                if text::same(k.as_str(), "notify_print_jobs") || text::same(
                    k.as_str(),
                    "notify_print",
                ) || text::same(k.as_str(), "print_notify") {
                    notify = means_on(v.as_str());
                }
            }
        }
        assert(ls.take(all.len() as int) =~= ls);
    }
    Settings { notify_print_jobs: notify }
}

/// What is said when the choice cannot be saved.
pub fn save_failed_ru(error: &str) -> (r: String)
    ensures
        r@ == "Не удалось сохранить notify_print_jobs: "@ + error@,
{
    let mut s = "Не удалось сохранить notify_print_jobs: ".to_owned();
    s.append(error);
    s
}

proof fn lemma_keys()
    ensures
        settings::is_key(NOTIFY_KEY@),
        notify_keys()(NOTIFY_KEY@),
        forall|k: Seq<char>| watchdog::own_keys()(k) ==> !(#[trigger] notify_keys()(k)),
{
    reveal_strlit("notify_print_jobs");
    reveal_strlit("notify_print");
    reveal_strlit("print_notify");
    reveal_strlit("watch_enabled");
    reveal_strlit("watch");
    reveal_strlit("auto_restart");
    let s = "notify_print_jobs"@;
    assert(s.len() == 17 && "notify_print"@.len() == 12 && "print_notify"@.len() == 12);
    assert(s[0] == 'n' && s[16] == 's');
    assert forall|i: int| 0 <= i < s.len() implies s[i] != '\n' && s[i] != '=' by {}
    assert("watch_enabled"@.len() == 13 && "watch"@.len() == 5 && "auto_restart"@.len() == 12);
    assert("auto_restart"@[0] == 'a' && "notify_print"@[0] == 'n' && "print_notify"@[0] == 'p');
}

/// The choice that was saved reads back, unless the file holds a later line about it,
/// which saving leaves alone, that says otherwise.
pub proof fn law_saved_choice_reads_back(old: Option<Seq<char>>, s: Settings)
    requires
        settings::later_choice(old, NOTIFY_KEY@, notify_keys()) != Some(!s.notify_print_jobs),
    ensures
        settings_in(Some(settings_file(old, s))) == s,
{
    lemma_keys();
    settings::law_set_choice_reads_back(old, NOTIFY_KEY@, s.notify_print_jobs, notify_keys());
}

/// Saving this choice changes nothing about the settings of the watchdog, and saving
/// those changes nothing about this choice.
pub proof fn law_settings_do_not_touch_each_other(
    old: Option<Seq<char>>,
    s: Settings,
    text: Seq<char>,
    w: watchdog::Settings,
)
    ensures
        watchdog::settings_in(Some(settings_file(old, s))) == watchdog::settings_in(old),
        settings_in(Some(watchdog::settings_file(text, w))) == settings_in(Some(text)),
{
    lemma_keys();
    settings::lemma_bit(s.notify_print_jobs);
    let value = settings::bit(s.notify_print_jobs);
    assert(!watchdog::own_keys()(NOTIFY_KEY@)) by {
        if watchdog::own_keys()(NOTIFY_KEY@) {
            assert(!notify_keys()(NOTIFY_KEY@));
        }
    }
    settings::law_other_keys_are_kept(old, NOTIFY_KEY@, value, watchdog::watch_keys());
    settings::law_other_keys_are_kept(old, NOTIFY_KEY@, value, watchdog::restart_keys());
    watchdog::law_saving_keeps_other_keys(text, w, notify_keys());
}

// ---------------------------------------------------------------------------
// The watcher and its switch

/// The choice, and whether anybody is watching.
#[derive(Debug)]
pub struct PrintNotify {
    pub settings: Settings,
    pub watching: bool,
}

/// What is to be done when the switch is turned.
#[derive(Debug, Clone, Copy, PartialEq, Eq, Structural)]
pub enum Turn {
    /// Save the settings.
    Save,
    /// Tell the watcher to stop.
    Stop,
    /// Start a watcher.
    Start,
}

/// What is to be done to have a watcher: the one there is, if any, is stopped first.
pub open spec fn turns_on(watching: bool) -> Seq<Turn> {
    if watching {
        seq![Turn::Stop, Turn::Start]
    } else {
        seq![Turn::Start]
    }
}

/// What is to be done to have no watcher.
pub open spec fn turns_off(watching: bool) -> Seq<Turn> {
    if watching {
        seq![Turn::Stop]
    } else {
        seq![]
    }
}

impl Turn {
    /// What is put in the log about it, if anything.
    pub fn log_ru(self) -> (r: Option<&'static str>)
        ensures
            text::opt_str(r) == match self {
                Turn::Save => None,
                Turn::Stop => Some("Уведомления о печати: фоновое слежение остановлено"@),
                Turn::Start => Some("Уведомления о печати: фоновое слежение запущено"@),
            },
    {
        match self {
            Turn::Save => None,
            Turn::Stop => Some("Уведомления о печати: фоновое слежение остановлено"),
            Turn::Start => Some("Уведомления о печати: фоновое слежение запущено"),
        }
    }
}

impl PrintNotify {
    /// The choice of the settings file, and what is to be done about it.
    pub fn load(file: Option<&str>) -> (r: (Self, Vec<Turn>))
        ensures
            r.0.settings == settings_in(text::opt_str(file)),
            r.0.watching == r.0.settings.notify_print_jobs,
            r.1@ == if r.0.settings.notify_print_jobs {
                turns_on(false)
            } else {
                seq![]
            },
    {
        let mut n = PrintNotify { settings: load_settings(file), watching: false };
        let mut turns: Vec<Turn> = Vec::new();
        if n.settings.notify_print_jobs {
            n.start_watcher(&mut turns);
            assert(turns@ =~= turns_on(false));
        }
        (n, turns)
    }

    /// The settings file `old` with the choice in it.
    pub fn save_settings(&self, old: Option<&str>) -> (r: String)
        ensures
            r@ == settings_file(text::opt_str(old), self.settings),
    {
        upsert_key(old, NOTIFY_KEY, bit_text(self.settings.notify_print_jobs))
    }

    /// Turns the switch, and says what is to be done.
    pub fn set_enabled(&mut self, on: bool) -> (r: Vec<Turn>)
        ensures
            final(self).settings == (Settings { notify_print_jobs: on }),
            final(self).watching == on,
            r@ == seq![Turn::Save] + if on {
                turns_on(old(self).watching)
            } else {
                turns_off(old(self).watching)
            },
    {
        let mut turns: Vec<Turn> = Vec::new();
        self.settings.notify_print_jobs = on;
        turns.push(Turn::Save);
        if on {
            self.start_watcher(&mut turns);
        } else {
            self.stop_watcher(&mut turns);
        }
        turns
    }

    fn start_watcher(&mut self, turns: &mut Vec<Turn>)
        ensures
            final(self).settings == old(self).settings,
            final(self).watching,
            final(turns)@ == old(turns)@ + turns_on(old(self).watching),
    {
        self.stop_watcher(turns);
        turns.push(Turn::Start);
        self.watching = true;
    }

    fn stop_watcher(&mut self, turns: &mut Vec<Turn>)
        ensures
            final(self).settings == old(self).settings,
            !final(self).watching,
            final(turns)@ == old(turns)@ + turns_off(old(self).watching),
    {
        if self.watching {
            self.watching = false;
            turns.push(Turn::Stop);
        }
    }

    /// Gives up watching, as at the end of the program.
    pub fn shut_down(&mut self) -> (r: Vec<Turn>)
        ensures
            final(self).settings == old(self).settings,
            !final(self).watching,
            r@ == turns_off(old(self).watching),
    {
        let mut turns: Vec<Turn> = Vec::new();
        self.stop_watcher(&mut turns);
        assert(turns@ =~= turns_off(old(self).watching));
        turns
    }

    /// The printers in the batches of names that the watcher has sent, in order and
    /// each once.
    pub fn poll_events(&mut self, batches: &Vec<Vec<String>>) -> (r: Vec<String>)
        ensures
            *final(self) == *old(self),
            order::ascending(text::texts(r@)),
            forall|n: Seq<char>|
                text::texts(r@).contains(n) <==> exists|i: int|
                    0 <= i < batches@.len() && text::texts(#[trigger] batches@[i]@).contains(n),
    {
        let mut all: Vec<String> = Vec::new();
        for i in 0..batches.len()
            invariant
                forall|n: Seq<char>|
                    #![trigger text::texts(all@).contains(n)]
                    text::texts(all@).contains(n) <==> exists|k: int|
                        0 <= k < i && text::texts(#[trigger] batches@[k]@).contains(n),
        {
            let ghost before = text::texts(all@);
            let batch = &batches[i];
            for j in 0..batch.len()
                invariant
                    i < batches.len(),
                    *batch == batches@[i as int],
                    text::texts(all@) == before + text::texts(batches@[i as int]@).take(j as int),
            {
                let ghost now = text::texts(all@);
                let name = batch[j].as_str().to_owned();
                all.push(name);
                proof {
                    assert(text::texts(all@) =~= now.push(name@));
                    assert(text::texts(batches@[i as int]@)[j as int] == name@);
                    assert(text::texts(all@) =~= before + text::texts(batches@[i as int]@).take(
                        j + 1,
                    ));
                }
            }
            proof {
                let batch = text::texts(batches@[i as int]@);
                assert(batch.take(batches@[i as int]@.len() as int) =~= batch);
                let now = text::texts(all@);
                assert forall|n: Seq<char>| now.contains(n) <==> (before.contains(n)
                    || batch.contains(n)) by {
                    if before.contains(n) {
                        let k = choose|k: int| 0 <= k < before.len() && before[k] == n;
                        assert(now[k] == n);
                    }
                    if batch.contains(n) {
                        let k = choose|k: int| 0 <= k < batch.len() && batch[k] == n;
                        assert(now[before.len() + k] == n);
                    }
                    if now.contains(n) {
                        let k = choose|k: int| 0 <= k < now.len() && now[k] == n;
                        if k < before.len() {
                            assert(before[k] == n);
                        } else {
                            assert(batch[k - before.len()] == n);
                        }
                    }
                }
                assert forall|n: Seq<char>| #[trigger] now.contains(n) <==> exists|k: int|
                    0 <= k < i + 1 && text::texts(#[trigger] batches@[k]@).contains(n) by {
                    if before.contains(n) {
                        let k = choose|k: int|
                            0 <= k < i && text::texts(#[trigger] batches@[k]@).contains(n);
                        assert(text::texts(batches@[k]@).contains(n));
                    }
                    if batch.contains(n) {
                        assert(text::texts(batches@[i as int]@).contains(n));
                    }
                }
            }
        }
        let out = sorted_set(&all);
        proof {
            assert forall|n: Seq<char>|
                text::texts(out@).contains(n) <==> exists|i: int|
                    0 <= i < batches@.len() && text::texts(#[trigger] batches@[i]@).contains(n) by {
                assert(text::texts(out@).to_set().contains(n) == text::texts(all@).to_set().contains(
                    n,
                ));
                assert(text::texts(out@).to_set().contains(n) == text::texts(out@).contains(n));
                assert(text::texts(all@).to_set().contains(n) == text::texts(all@).contains(n));
            }
        }
        out
    }
}

/// What is said about the printers that something was sent to.
pub open spec fn message(names: Seq<Seq<char>>) -> Seq<char> {
    if names.len() == 0 {
        Seq::empty()
    } else if names.len() == 1 {
        "На принтер «"@ + names[0] + "» отправлено на печать."@
    } else {
        "Отправлено на печать: "@ + lines::join(names, ", "@) + "."@
    }
}

/// What is said about the printers that something was sent to.
pub fn message_ru(printer_names: &[String]) -> (r: String)
    ensures
        r@ == message(text::texts(printer_names@)),
{
    if printer_names.len() == 0 {
        let s = String::new();
        assert(s@ =~= Seq::empty());
        s
    } else if printer_names.len() == 1 {
        let mut s = "На принтер «".to_owned();
        s.append(printer_names[0].as_str());
        s.append("» отправлено на печать.");
        s
    } else {
        let mut s = "Отправлено на печать: ".to_owned();
        s.append(join_texts(printer_names, ", ").as_str());
        s.append(".");
        s
    }
}

// ---------------------------------------------------------------------------
// Watching

/// The number of jobs of each printer, as it was when the printers were last looked
/// at. A name that occurs twice counts with what stands last.
pub open spec fn counts(ps: Seq<(Seq<char>, nat)>) -> Map<Seq<char>, nat>
    decreases ps.len(),
{
    if ps.len() == 0 {
        Map::empty()
    } else {
        counts(ps.drop_last()).insert(ps.last().0, ps.last().1)
    }
}

/// Names and numbers as values of their own.
pub open spec fn pairs(v: Seq<(String, usize)>) -> Seq<(Seq<char>, nat)> {
    Seq::new(v.len(), |i: int| (v[i].0@, v[i].1 as nat))
}

/// The names of printers and the numbers of their jobs.
pub open spec fn printer_pairs(ps: Seq<queue::PrinterView>) -> Seq<(Seq<char>, nat)> {
    Seq::new(ps.len(), |i: int| (ps[i].name, ps[i].jobs))
}

/// What a look at the printers remembers.
pub open spec fn remembered(b: Option<Vec<(String, usize)>>) -> Option<Map<Seq<char>, nat>> {
    match b {
        Some(v) => Some(counts(pairs(v@))),
        None => None,
    }
}

/// How many jobs a printer had before.
pub open spec fn jobs_before(prev: Map<Seq<char>, nat>, name: Seq<char>) -> nat {
    if prev.contains_key(name) {
        prev[name]
    } else {
        0
    }
}

/// The printers that have more jobs than before, in order.
pub open spec fn risen(prev: Map<Seq<char>, nat>, ps: Seq<queue::PrinterView>) -> Seq<Seq<char>>
    decreases ps.len(),
{
    if ps.len() == 0 {
        seq![]
    } else if ps.last().jobs > jobs_before(prev, ps.last().name) {
        risen(prev, ps.drop_last()).push(ps.last().name)
    } else {
        risen(prev, ps.drop_last())
    }
}

/// What is to be told after a look at the printers: the first look tells nothing.
pub open spec fn news(prev: Option<Map<Seq<char>, nat>>, ps: Seq<queue::PrinterView>) -> Option<
    Seq<Seq<char>>,
> {
    match prev {
        None => None,
        Some(p) => if risen(p, ps).len() == 0 {
            None
        } else {
            Some(risen(p, ps))
        },
    }
}

/// Names that may be missing.
pub open spec fn opt_texts(o: Option<Vec<String>>) -> Option<Seq<Seq<char>>> {
    match o {
        Some(v) => Some(text::texts(v@)),
        None => None,
    }
}

fn lookup(v: &Vec<(String, usize)>, name: &str) -> (r: usize)
    ensures
        r == jobs_before(counts(pairs(v@)), name@),
{
    let mut i: usize = v.len();
    assert(pairs(v@).take(v.len() as int) =~= pairs(v@));
    while i > 0
        invariant
            i <= v.len(),
            jobs_before(counts(pairs(v@)), name@) == jobs_before(
                counts(pairs(v@).take(i as int)),
                name@,
            ),
        decreases i,
    {
        let ghost here = pairs(v@).take(i as int);
        assert(here.drop_last() =~= pairs(v@).take(i - 1));
        assert(here.last() == pairs(v@)[i - 1]);
        if text::same(v[i - 1].0.as_str(), name) {
            return v[i - 1].1;
        }
        i -= 1;
    }
    assert(pairs(v@).take(0).len() == 0);
    0
}

/// Looks at the printers and says which of them have more jobs than at the last
/// look.
pub fn detect_new_jobs(baseline: &mut Option<Vec<(String, usize)>>, printers: &[PrinterEntry]) -> (
    r: Option<Vec<String>>)
    ensures
        remembered(*final(baseline)) == Some(
            counts(printer_pairs(queue::views(printers@))),
        ),
        opt_texts(r) == news(remembered(*old(baseline)), queue::views(printers@)),
{
    let ghost ps = queue::views(printers@);
    let mut current: Vec<(String, usize)> = Vec::new();
    for i in 0..printers.len()
        invariant
            ps == queue::views(printers@),
            pairs(current@) == printer_pairs(ps).take(i as int),
    {
        let ghost before = pairs(current@);
        let name = printers[i].name.as_str().to_owned();
        current.push((name, printers[i].jobs));
        proof {
            assert(pairs(current@) =~= before.push((name@, printers@[i as int].jobs as nat)));
            assert(printer_pairs(ps)[i as int] == (name@, printers@[i as int].jobs as nat));
            assert(printer_pairs(ps).take(i + 1) =~= before.push(printer_pairs(ps)[i as int]));
        }
    }
    assert(printer_pairs(ps).take(printers.len() as int) =~= printer_pairs(ps));
    let prev = match baseline.take() {
        None => {
            *baseline = Some(current);
            return None;
        },
        Some(prev) => prev,
    };
    let ghost known = counts(pairs(prev@));
    let mut newly: Vec<String> = Vec::new();
    assert(text::texts(newly@) =~= risen(known, ps.take(0)));
    for i in 0..printers.len()
        invariant
            ps == queue::views(printers@),
            known == counts(pairs(prev@)),
            text::texts(newly@) == risen(known, ps.take(i as int)),
    {
        let ghost before = text::texts(newly@);
        assert(ps.take(i + 1).drop_last() =~= ps.take(i as int));
        assert(ps.take(i + 1).last() == printers@[i as int]@);
        if printers[i].jobs > lookup(&prev, printers[i].name.as_str()) {
            let name = printers[i].name.as_str().to_owned();
            newly.push(name);
            assert(text::texts(newly@) =~= before.push(name@));
        }
    }
    assert(ps.take(printers.len() as int) =~= ps);
    *baseline = Some(current);
    assert(text::texts(newly@).len() == newly.len());
    if newly.len() == 0 {
        None
    } else {
        Some(newly)
    }
}

/// The first look at the printers tells nothing.
pub proof fn law_first_look_is_silent(ps: Seq<queue::PrinterView>)
    ensures
        news(None, ps) is None,
{
}

/// Number `j` is the last printer of its name.
pub open spec fn last_of_name(ps: Seq<queue::PrinterView>, j: int) -> bool {
    forall|k: int| j < k < ps.len() ==> (#[trigger] ps[k]).name != ps[j].name
}

proof fn lemma_last_counts(ps: Seq<queue::PrinterView>, i: int) -> (j: int)
    requires
        0 <= i < ps.len(),
    ensures
        i <= j < ps.len(),
        ps[j].name == ps[i].name,
        last_of_name(ps, j),
        jobs_before(counts(printer_pairs(ps)), ps[i].name) == ps[j].jobs,
    decreases ps.len(),
{
    let end = ps.len() - 1;
    let rest = ps.drop_last();
    assert(printer_pairs(ps).drop_last() =~= printer_pairs(rest));
    if ps[end].name == ps[i].name {
        end
    } else {
        let j = lemma_last_counts(rest, i);
        assert forall|k: int| j < k < ps.len() implies (#[trigger] ps[k]).name != ps[j].name by {
            if k < end {
                assert(rest[k] == ps[k]);
            }
        }
        j
    }
}

/// A second look at printers that have not changed tells nothing, as long as none of
/// them is listed again with fewer jobs.
pub proof fn law_unchanged_printers_are_silent(ps: Seq<queue::PrinterView>)
    requires
        forall|i: int, j: int|
            0 <= i < j < ps.len() && (#[trigger] ps[i]).name == (#[trigger] ps[j]).name
                && last_of_name(ps, j) ==> ps[i].jobs <= ps[j].jobs,
    ensures
        news(Some(counts(printer_pairs(ps))), ps) is None,
{
    assert forall|i: int| 0 <= i < ps.len() implies (#[trigger] ps[i]).jobs <= jobs_before(
        counts(printer_pairs(ps)),
        ps[i].name,
    ) by {
        let j = lemma_last_counts(ps, i);
        assert(ps[i].jobs <= ps[j].jobs);
    }
    lemma_none_risen(counts(printer_pairs(ps)), ps);
}

proof fn lemma_none_risen(prev: Map<Seq<char>, nat>, ps: Seq<queue::PrinterView>)
    requires
        forall|i: int|
            0 <= i < ps.len() ==> (#[trigger] ps[i]).jobs <= jobs_before(prev, ps[i].name),
    ensures
        risen(prev, ps).len() == 0,
    decreases ps.len(),
{
    if ps.len() > 0 {
        assert(ps[ps.len() - 1] == ps.last());
        assert forall|i: int| 0 <= i < ps.drop_last().len() implies (
        #[trigger] ps.drop_last()[i]).jobs <= jobs_before(prev, ps.drop_last()[i].name) by {
            assert(ps.drop_last()[i] == ps[i]);
        }
        lemma_none_risen(prev, ps.drop_last());
    }
}

/// A printer is told of exactly when it has more jobs than before.
pub proof fn law_only_risen_printers_are_told(
    prev: Map<Seq<char>, nat>,
    ps: Seq<queue::PrinterView>,
    name: Seq<char>,
)
    ensures
        risen(prev, ps).contains(name) <==> exists|i: int|
            0 <= i < ps.len() && (#[trigger] ps[i]).name == name && ps[i].jobs > jobs_before(
                prev,
                name,
            ),
    decreases ps.len(),
{
    let all = risen(prev, ps);
    if ps.len() > 0 {
        let rest = ps.drop_last();
        let some = risen(prev, rest);
        law_only_risen_printers_are_told(prev, rest, name);
        let l = ps.last();
        if all.contains(name) {
            let k = choose|k: int| 0 <= k < all.len() && all[k] == name;
            if k < some.len() {
                assert(some[k] == name);
                let i = choose|i: int|
                    0 <= i < rest.len() && (#[trigger] rest[i]).name == name && rest[i].jobs
                        > jobs_before(prev, name);
                assert(ps[i] == rest[i]);
            } else {
                assert(ps[ps.len() - 1] == l);
            }
        }
        if exists|i: int|
            0 <= i < ps.len() && (#[trigger] ps[i]).name == name && ps[i].jobs > jobs_before(
                prev,
                name,
            ) {
            let i = choose|i: int|
                0 <= i < ps.len() && (#[trigger] ps[i]).name == name && ps[i].jobs > jobs_before(
                    prev,
                    name,
                );
            if i < rest.len() {
                assert(rest[i] == ps[i]);
                let k = choose|k: int| 0 <= k < some.len() && some[k] == name;
                assert(all[k] == name);
            } else {
                assert(all[all.len() - 1] == name);
            }
        }
    }
}

/// The printers told of are those of the first part of a list and then those of the
/// rest.
pub proof fn law_news_come_in_order(
    prev: Map<Seq<char>, nat>,
    a: Seq<queue::PrinterView>,
    b: Seq<queue::PrinterView>,
)
    ensures
        risen(prev, a + b) == risen(prev, a) + risen(prev, b),
    decreases b.len(),
{
    if b.len() == 0 {
        assert(a + b =~= a);
        assert(risen(prev, a) + risen(prev, b) =~= risen(prev, a));
    } else {
        law_news_come_in_order(prev, a, b.drop_last());
        assert((a + b).drop_last() =~= a + b.drop_last());
        assert((a + b).last() == b.last());
        assert(risen(prev, a + b) =~= risen(prev, a) + risen(prev, b));
    }
}

/// Of two looks at printers, the second tells exactly of those that have more jobs
/// than at the first, and of those that are new and have any.
pub proof fn law_second_look_tells_who_has_more(
    before: Seq<queue::PrinterView>,
    after: Seq<queue::PrinterView>,
    name: Seq<char>,
)
    requires
        forall|i: int, j: int|
            0 <= i < j < before.len() ==> (#[trigger] before[i]).name != (
            #[trigger] before[j]).name,
    ensures
        ({
            let told = news(Some(counts(printer_pairs(before))), after);
            told is Some && told->0.contains(name)
        }) <==> exists|k: int|
            0 <= k < after.len() && (#[trigger] after[k]).name == name && after[k].jobs > 0 && (
            forall|i: int|
                0 <= i < before.len() && (#[trigger] before[i]).name == name ==> after[k].jobs
                    > before[i].jobs),
{
    let prev = counts(printer_pairs(before));
    law_only_risen_printers_are_told(prev, after, name);
    lemma_counts_of_all(before, name);
    if exists|i: int| 0 <= i < before.len() && (#[trigger] before[i]).name == name {
        let i = choose|i: int| 0 <= i < before.len() && (#[trigger] before[i]).name == name;
        let j = lemma_last_counts(before, i);
        assert(i == j);
        assert(jobs_before(prev, name) == before[i].jobs);
        assert forall|k: int| 0 <= k < before.len() && (#[trigger] before[k]).name == name implies k
            == i by {}
    } else {
        assert(jobs_before(prev, name) == 0);
    }
    let told = risen(prev, after);
    if told.contains(name) {
        assert(told.len() > 0);
        let k = choose|k: int|
            0 <= k < after.len() && (#[trigger] after[k]).name == name && after[k].jobs
                > jobs_before(prev, name);
        assert(after[k].jobs > 0);
        assert forall|i: int| 0 <= i < before.len() && (#[trigger] before[i]).name
            == name implies after[k].jobs > before[i].jobs by {}
    }
}

proof fn lemma_counts_of_all(ps: Seq<queue::PrinterView>, name: Seq<char>)
    ensures
        counts(printer_pairs(ps)).contains_key(name) <==> exists|i: int|
            0 <= i < ps.len() && (#[trigger] ps[i]).name == name,
    decreases ps.len(),
{
    if ps.len() > 0 {
        let rest = ps.drop_last();
        lemma_counts_of_all(rest, name);
        assert(printer_pairs(ps).drop_last() =~= printer_pairs(rest));
        assert(printer_pairs(ps).last() == (ps.last().name, ps.last().jobs));
        if exists|i: int| 0 <= i < rest.len() && (#[trigger] rest[i]).name == name {
            let i = choose|i: int| 0 <= i < rest.len() && (#[trigger] rest[i]).name == name;
            assert(ps[i].name == name);
        }
        if exists|i: int| 0 <= i < ps.len() && (#[trigger] ps[i]).name == name {
            let i = choose|i: int| 0 <= i < ps.len() && (#[trigger] ps[i]).name == name;
            if i < rest.len() {
                assert(rest[i].name == name);
            } else {
                assert(ps[i] == ps.last());
            }
        }
        if ps.last().name == name {
            assert(ps[ps.len() - 1].name == name);
        }
    }
}

/// The message names every printer that something was sent to: one in a sentence of
/// its own, several with commas between them.
pub proof fn law_message_names_every_printer(names: Seq<Seq<char>>)
    ensures
        names.len() == 0 ==> message(names).len() == 0,
        names.len() == 1 ==> message(names) == "На принтер «"@ + names[0]
            + "» отправлено на печать."@,
        names.len() > 1 ==> message(names) == "Отправлено на печать: "@ + lines::join(names, ", "@)
            + "."@,
{
}

/// To have a watcher, one is started, and the one there may be is stopped before; to
/// have none, the one there may be is stopped. The choice stands under any of three
/// keys.
pub proof fn law_at_most_one_watcher(watching: bool, k: Seq<char>)
    ensures
        turns_on(false) == seq![Turn::Start],
        turns_on(true) == seq![Turn::Stop, Turn::Start],
        turns_off(false) == Seq::<Turn>::empty(),
        turns_off(true) == seq![Turn::Stop],
        notify_keys()(k) <==> k == "notify_print_jobs"@ || k == "notify_print"@ || k
            == "print_notify"@,
{
}

// ---------------------------------------------------------------------------
// One round of the watcher

/// How often the printers are looked at in one round: more than once where the
/// system has announced a job, because a job may be there only for a moment.
pub fn attempts(woken: bool) -> (r: u32)
    ensures
        r == if woken {
            5u32
        } else {
            1u32
        },
{
    if woken {
        5
    } else {
        1
    }
}

/// What the watcher does next in a round.
#[derive(Debug, PartialEq, Eq)]
pub enum Round {
    /// Look at the printers.
    Look,
    /// Wait for a moment, then look at the printers.
    Retry,
    /// Tell of these printers; the round is over.
    Tell(Vec<String>),
    /// Put this in the log; the round is over.
    GiveUp(String),
    /// The round is over.
    Over,
}

/// Begins a round, unless the watcher was told to stop.
pub fn begin_round(stopped: bool) -> (r: Round)
    ensures
        r == (if stopped {
            Round::Over
        } else {
            Round::Look
        }),
{
    if stopped {
        Round::Over
    } else {
        Round::Look
    }
}

/// Goes on with a round after the look number `done` at the printers, counting from
/// one.
pub fn after_look(
    baseline: &mut Option<Vec<(String, usize)>>,
    woken: bool,
    done: u32,
    look: Result<Vec<PrinterEntry>, String>,
) -> (r: Round)
    requires
        1 <= done,
    ensures
        match look {
            Err(e) => remembered(*final(baseline)) == remembered(*old(baseline)) && r is GiveUp
                && r->GiveUp_0@ == "Уведомления о печати: список принтеров: "@ + e@,
            Ok(list) => {
                let told = news(remembered(*old(baseline)), queue::views(list@));
                &&& remembered(*final(baseline)) == Some(
                    counts(printer_pairs(queue::views(list@))),
                )
                &&& match told {
                    Some(names) => r is Tell && text::texts(r->Tell_0@) == names,
                    None => r == (if woken && done < 5 {
                        Round::Retry
                    } else {
                        Round::Over
                    }),
                }
            },
        },
{
    match look {
        Err(e) => {
            let mut s = "Уведомления о печати: список принтеров: ".to_owned();
            s.append(e.as_str());
            Round::GiveUp(s)
        },
        Ok(list) => match detect_new_jobs(baseline, list.as_slice()) {
            Some(names) => Round::Tell(names),
            None => {
                if woken && done < attempts(woken) {
                    Round::Retry
                } else {
                    Round::Over
                }
            },
        },
    }
}

/// What is put in the log when the watcher begins.
pub fn watcher_log_ru(subscribed: bool) -> (r: &'static str)
    ensures
        r@ == if subscribed {
            "Уведомления о печати: подписка Spooler (ADD_JOB) активна"@
        } else {
            "Уведомления о печати: только опрос 1 с (подписка Spooler недоступна)"@
        },
{
    if subscribed {
        "Уведомления о печати: подписка Spooler (ADD_JOB) активна"
    } else {
        "Уведомления о печати: только опрос 1 с (подписка Spooler недоступна)"
    }
}

// ---------------------------------------------------------------------------
// Values as they are seen

/// What a look remembers are the names of the printers and the numbers of their jobs,
/// one by one.
pub proof fn law_looks_are_remembered_as_they_were(
    v: Vec<(String, usize)>,
    names: Vec<String>,
    ps: Seq<queue::PrinterView>,
    i: int,
)
    ensures
        pairs(v@).len() == v@.len(),
        0 <= i < v@.len() ==> pairs(v@)[i] == (v@[i].0@, v@[i].1 as nat),
        printer_pairs(ps).len() == ps.len(),
        0 <= i < ps.len() ==> printer_pairs(ps)[i] == (ps[i].name, ps[i].jobs),
        remembered(Some(v)) == Some(counts(pairs(v@))),
        remembered(None) is None,
        opt_texts(Some(names)) == Some(text::texts(names@)),
        opt_texts(None) is None,
{
}

} // verus!
