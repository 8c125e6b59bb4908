//! Opening things in Explorer.

use vstd::prelude::*;
use crate::number;
use crate::number::signed_text;
use crate::text;

verus! {

/// What the shell is asked to do with a thing.
pub const OPEN_VERB: &'static str = "open";

/// The shell reports success by a code above this one.
pub const SHELL_FAILED: i64 = 32;

/// What came of asking the shell to open `what`.
pub open spec fn shell_outcome(what: Seq<char>, code: i64) -> Result<(), Seq<char>> {
    if code <= SHELL_FAILED {
        Err("Не удалось открыть "@ + what + " (код "@ + number::signed_decimal(code as int) + ")."@)
    } else {
        Ok(())
    }
}

/// What came of asking the shell to open `what`, by the code that it returned.
pub fn shell_result(what: &str, code: i64) -> (r: Result<(), String>)
    ensures
        text::unit_result_text(r) == shell_outcome(what@, code),
{
    if code <= SHELL_FAILED {
        let mut s = "Не удалось открыть ".to_owned();
        s.append(what);
        s.append(" (код ");
        s.append(signed_text(code).as_str());
        s.append(").");
        Err(s)
    } else {
        Ok(())
    }
}

/// The shell has failed exactly where its code is no more than 32, and that is said
/// with the thing and the code.
pub proof fn law_shell_fails_by_its_code(what: Seq<char>, code: i64)
    ensures
        code > 32 ==> shell_outcome(what, code) == Ok::<(), Seq<char>>(()),
        code <= 32 ==> shell_outcome(what, code) == Err::<(), Seq<char>>(
            "Не удалось открыть "@ + what + " (код "@ + number::signed_decimal(code as int) + ")."@,
        ),
{
}

} // verus!
