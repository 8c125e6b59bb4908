//! The rights of an administrator: whether the program has them, and how it is
//! started again with them, at the same place of the screen.

use vstd::prelude::*;
use crate::number;
use crate::number::signed_text;
use crate::shell;
use crate::text;
use crate::text::{begins_with, chars_of, find_char, part, string_of, trim_chars};
use crate::win32::WinError;

verus! {

/// What the shell is asked to do to start a program with more rights.
pub const RUN_AS_VERB: &'static str = "runas";

/// Whether the program has the rights, or why that cannot be said: the failure of
/// opening the token, and what its elevation reads.
pub open spec fn elevation(open: Option<WinError>, info: Result<u32, WinError>) -> Result<
    bool,
    Seq<char>,
> {
    match (open, info) {
        (Some(e), _) => Err("OpenProcessToken: "@ + e.text@),
        (None, Err(e)) => Err("GetTokenInformation: "@ + e.text@),
        (None, Ok(n)) => Ok(n != 0),
    }
}

/// Whether the program has the rights, or why that cannot be said.
pub fn query_elevated(open: &Option<WinError>, info: &Result<u32, WinError>) -> (r: Result<
    bool,
    String,
>)
    ensures
        match r {
            Ok(b) => elevation(*open, *info) == Ok::<bool, Seq<char>>(b),
            Err(e) => elevation(*open, *info) == Err::<bool, Seq<char>>(e@),
        },
{
    if let Some(e) = open {
        let mut s = "OpenProcessToken: ".to_owned();
        s.append(e.text.as_str());
        return Err(s);
    }
    match info {
        Err(e) => {
            let mut s = "GetTokenInformation: ".to_owned();
            s.append(e.text.as_str());
            Err(s)
        },
        Ok(n) => Ok(*n != 0),
    }
}

/// Whether the program has the rights; where that cannot be said, it has not.
pub fn is_elevated(open: &Option<WinError>, info: &Result<u32, WinError>) -> (r: bool)
    ensures
        r == (elevation(*open, *info) == Ok::<bool, Seq<char>>(true)),
{
    match query_elevated(open, info) {
        Ok(b) => b,
        Err(_) => false,
    }
}

/// The place of the window: its own, or that of the window in front, or what the
/// window says of itself.
pub fn current_window_pos(
    main: Option<(i32, i32)>,
    front: Option<(i32, i32)>,
    viewport: Option<(i32, i32)>,
) -> (r: Option<(i32, i32)>)
    ensures
        r == (if main is Some {
            main
        } else if front is Some {
            front
        } else {
            viewport
        }),
{
    if main.is_some() {
        main
    } else if front.is_some() {
        front
    } else {
        viewport
    }
}

/// The option that names a place.
pub open spec fn pos_option(x: int, y: int) -> Seq<char> {
    "--pos="@ + number::signed_decimal(x) + ","@ + number::signed_decimal(y)
}

/// The options with which the program is started again.
pub open spec fn relaunch_options(pos: Option<(i32, i32)>) -> Seq<char> {
    match pos {
        Some((x, y)) => "--show "@ + pos_option(x as int, y as int),
        None => "--show"@,
    }
}

/// How the program is to be started again.
#[derive(Debug)]
pub struct Relaunch {
    pub exe: String,
    pub options: String,
}

/// How the program is to be started again with the rights, by whoever has them not.
pub fn relaunch_elevated(elevated: bool, exe: Result<String, String>, pos: Option<(i32, i32)>) -> (
    r: Result<Relaunch, String>)
    ensures
        match r {
            Ok(l) => !elevated && exe is Ok && l.exe@ == exe->Ok_0@ && l.options@
                == relaunch_options(pos),
            Err(e) => if elevated {
                e@ == "Уже запущено с правами администратора."@
            } else {
                exe is Err && e@ == "Не удалось найти путь к EXE: "@ + exe->Err_0@
            },
        },
{
    if elevated {
        return Err("Уже запущено с правами администратора.".to_owned());
    }
    match exe {
        Err(e) => {
            let mut s = "Не удалось найти путь к EXE: ".to_owned();
            s.append(e.as_str());
            Err(s)
        },
        Ok(exe) => {
            let options = match pos {
                None => "--show".to_owned(),
                Some((x, y)) => {
                    let mut place = "--pos=".to_owned();
                    place.append(signed_text(x as i64).as_str());
                    place.append(",");
                    place.append(signed_text(y as i64).as_str());
                    let mut s = "--show ".to_owned();
                    s.append(place.as_str());
                    s
                },
            };
            Ok(Relaunch { exe, options })
        },
    }
}

/// What came of it, by the code that the shell returned.
pub fn relaunched(code: i64) -> (r: Result<(), String>)
    ensures
        text::unit_result_text(r) == if code <= 32 {
            Err(
                "Не удалось запросить права администратора (код "@ + number::signed_decimal(
                    code as int,
                ) + "). Отмена UAC?"@,
            )
        } else {
            Ok(())
        },
{
    if code <= shell::SHELL_FAILED {
        let mut s = "Не удалось запросить права администратора (код ".to_owned();
        s.append(signed_text(code).as_str());
        s.append("). Отмена UAC?");
        return Err(s);
    }
    Ok(())
}

// ---------------------------------------------------------------------------
// The place, from the options

/// The two numbers of a place, as they are written: the first two of the parts
/// between commas, without the white space around them.
pub open spec fn place_in(rest: Seq<char>) -> Option<(Seq<char>, Seq<char>)> {
    match text::split_once(rest, ',') {
        None => None,
        Some((x, more)) => Some(
            (
                text::trim(x),
                text::trim(
                    match text::split_once(more, ',') {
                        Some((y, _)) => y,
                        None => more,
                    },
                ),
            ),
        ),
    }
}

/// The place that the first option of its kind names.
pub open spec fn pos_in(args: Seq<Seq<char>>) -> Option<(Seq<char>, Seq<char>)>
    decreases args.len(),
{
    if args.len() == 0 {
        None
    } else if text::begins(args[0], "--pos="@) {
        place_in(args[0].skip("--pos="@.len() as int))
    } else {
        pos_in(args.drop_first())
    }
}

/// Two texts that may be missing.
pub open spec fn opt_pair(o: Option<(String, String)>) -> Option<(Seq<char>, Seq<char>)> {
    match o {
        Some((a, b)) => Some((a@, b@)),
        None => None,
    }
}

fn read_place(rest: &Vec<char>) -> (r: Option<(String, String)>)
    ensures
        opt_pair(r) == place_in(rest@),
{
    let k = find_char(rest, ',');
    if k == rest.len() {
        return None;
    }
    let x = part(rest, 0, k);
    let more = part(rest, k + 1, rest.len());
    assert(x@ =~= rest@.take(k as int));
    assert(more@ =~= rest@.skip(k + 1));
    let j = find_char(&more, ',');
    let y = part(&more, 0, j);
    assert(y@ =~= more@.take(j as int));
    assert(j == more.len() ==> y@ =~= more@);
    Some((string_of(&trim_chars(&x)), string_of(&trim_chars(&y))))
}

/// The two numbers of the place that the options name, as they are written.
pub fn parse_pos_arg(args: &[String]) -> (r: Option<(String, String)>)
    ensures
        opt_pair(r) == pos_in(text::texts(args@)),
{
    let ghost all = text::texts(args@);
    assert(all.skip(0) =~= all);
    for i in 0..args.len()
        invariant
            all == text::texts(args@),
            pos_in(all.skip(i as int)) == pos_in(all),
    {
        let chars = chars_of(args[i].as_str());
        assert(all.skip(i as int)[0] == chars@);
        assert(all.skip(i as int).drop_first() =~= all.skip(i + 1));
        if begins_with(&chars, "--pos=") {
            proof {
                reveal_strlit("--pos=");
                assert("--pos="@.len() == 6);
            }
            let rest = part(&chars, 6, chars.len());
            assert(rest@ =~= chars@.skip(6));
            return read_place(&rest);
        }
    }
    assert(all.skip(args.len() as int).len() == 0);
    None
}

proof fn lemma_written_number(n: int)
    ensures
        number::signed_decimal(n).len() > 0,
        forall|i: int|
            0 <= i < number::signed_decimal(n).len() ==> (#[trigger] number::signed_decimal(n)[i])
                == '-' || number::is_digit(number::signed_decimal(n)[i]),
{
    number::law_decimal_reads_back(
        if n < 0 {
            (-n) as nat
        } else {
            n as nat
        },
    );
}

/// The program that is started again finds the place that it was started with.
pub proof fn law_place_reads_back(x: i32, y: i32)
    ensures
        pos_in(seq!["--show"@, pos_option(x as int, y as int)]) == Some(
            (number::signed_decimal(x as int), number::signed_decimal(y as int)),
        ),
{
    reveal_strlit("--show");
    reveal_strlit("--pos=");
    reveal_strlit(",");
    let a = number::signed_decimal(x as int);
    let b = number::signed_decimal(y as int);
    let option = pos_option(x as int, y as int);
    let args = seq!["--show"@, option];
    lemma_written_number(x as int);
    lemma_written_number(y as int);
    assert("--show"@[2] == 's' && "--pos="@[2] == 'p');
    assert(!text::begins("--show"@, "--pos="@)) by {
        assert("--show"@.subrange(0, 6)[2] == 's');
    }
    assert(args.drop_first() =~= seq![option]);
    let rest = option.skip(6);
    assert(option.subrange(0, 6) =~= "--pos="@);
    assert(pos_in(seq![option]) == place_in(rest));
    assert(rest =~= a + seq![','] + b);
    assert forall|i: int| 0 <= i < a.len() implies !text::only(',')(#[trigger] rest[i]) by {
        assert(rest[i] == a[i]);
    }
    text::lemma_first_in_is(rest, text::only(','), a.len() as int);
    assert(rest.take(a.len() as int) =~= a);
    assert(rest.skip(a.len() as int + 1) =~= b);
    assert forall|i: int| 0 <= i < b.len() implies !text::only(',')(#[trigger] b[i]) by {}
    text::lemma_first_in_is(b, text::only(','), b.len() as int);
    assert(!text::is_white(a[0]) && !text::is_white(a[a.len() - 1]));
    assert(!text::is_white(b[0]) && !text::is_white(b[b.len() - 1]));
    text::lemma_trim_noop(a);
    text::lemma_trim_noop(b);
    assert(pos_in(args) == pos_in(args.drop_first()));
}

// ---------------------------------------------------------------------------
// What holds of the rights and the place

/// The program has the rights where its token could be read and says so; else that
/// cannot be said.
pub proof fn law_rights_are_what_the_token_says(open: Option<WinError>, info: Result<u32, WinError>)
    ensures
        open is None && info is Ok ==> elevation(open, info) == Ok::<bool, Seq<char>>(
            info->Ok_0 != 0,
        ),
        open is Some ==> elevation(open, info) == Err::<bool, Seq<char>>(
            "OpenProcessToken: "@ + open->0.text@,
        ),
        open is None && info is Err ==> elevation(open, info) == Err::<bool, Seq<char>>(
            "GetTokenInformation: "@ + info->Err_0.text@,
        ),
{
}

/// The program that is started again shows its window, at the place where it was, if
/// that is known.
pub proof fn law_relaunch_shows_the_window(x: i32, y: i32)
    ensures
        relaunch_options(None) == "--show"@,
        relaunch_options(Some((x, y))) == "--show --pos="@ + number::signed_decimal(x as int) + ","@
            + number::signed_decimal(y as int),
{
    reveal_strlit("--show ");
    reveal_strlit("--pos=");
    reveal_strlit("--show --pos=");
    let a = number::signed_decimal(x as int);
    let b = number::signed_decimal(y as int);
    assert("--show "@ + "--pos="@ =~= "--show --pos="@);
    assert("--show "@ + ("--pos="@ + a + ","@ + b) =~= "--show --pos="@ + a + ","@ + b);
}

/// The first argument that names a place counts, wherever it stands, and one without a
/// comma names none.
pub proof fn law_first_place_counts(before: Seq<Seq<char>>, place: Seq<char>, after: Seq<Seq<char>>)
    requires
        forall|i: int| 0 <= i < before.len() ==> !text::begins(#[trigger] before[i], "--pos="@),
    ensures
        pos_in(before + seq!["--pos="@ + place] + after) == place_in(place),
        pos_in(before) is None,
        !place.contains(',') ==> place_in(place) is None,
    decreases before.len(),
{
    let option = "--pos="@ + place;
    let all = before + seq![option] + after;
    if before.len() == 0 {
        assert(all[0] == option);
        assert(option.subrange(0, "--pos="@.len() as int) =~= "--pos="@);
        assert(option.skip("--pos="@.len() as int) =~= place);
    } else {
        let rest = before.drop_first();
        assert(all[0] == before[0]);
        assert(all.drop_first() =~= rest + seq![option] + after);
        assert forall|i: int| 0 <= i < rest.len() implies !text::begins(
            #[trigger] rest[i],
            "--pos="@,
        ) by {
            assert(rest[i] == before[i + 1]);
        }
        law_first_place_counts(rest, place, after);
    }
    if !place.contains(',') {
        assert forall|i: int| 0 <= i < place.len() implies !text::only(',')(#[trigger] place[i]) by {
            assert(place.contains(place[i]));
        }
        text::lemma_first_in_is(place, text::only(','), place.len() as int);
    }
}

// ---------------------------------------------------------------------------
// Values as they are seen

/// A place is seen as its two numbers, as they are written.
pub proof fn law_places_are_seen_as_they_are(a: String, b: String)
    ensures
        opt_pair(Some((a, b))) == Some((a@, b@)),
        opt_pair(None) is None,
{
}

} // verus!
