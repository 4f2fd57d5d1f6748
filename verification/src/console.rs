//! The plain console's download-history menu and update prompt: which
//! command was typed, the filter keyword, the listed lines and the yes/no
//! answer.

use crate::text::{chars_of, dec_string, eq_ignore_ascii_case, lower_seq, str_eq, string_of, to_lower_chars, trim_seq, trim_str, u64_to_dec};
use crate::web::DownloadHistoryRecord;
use vstd::prelude::*;

verus! {

/// A command of the history menu.
#[derive(Debug, Clone, Copy, PartialEq, Eq, Structural)]
pub enum HistoryCommand {
    /// Read and list the history again (Enter, or anything unknown).
    Refresh,
    /// Ask for a filter keyword ("f").
    AskFilter,
    /// Drop the filter ("c").
    ClearFilter,
    /// Back to the main menu ("q").
    Quit,
}

/// Whether `s` is `word` up to ASCII case.
pub open spec fn is_word(s: Seq<char>, word: Seq<char>) -> bool {
    lower_seq(s) == lower_seq(word)
}

/// The command typed as `input` (surrounding whitespace ignored, letters in
/// either case).
pub open spec fn history_command_spec(input: Seq<char>) -> HistoryCommand {
    let t = trim_seq(input);
    if is_word(t, "q"@) {
        HistoryCommand::Quit
    } else if is_word(t, "f"@) {
        HistoryCommand::AskFilter
    } else if is_word(t, "c"@) {
        HistoryCommand::ClearFilter
    } else {
        HistoryCommand::Refresh
    }
}

/// The command typed as `input`.
pub fn history_command(input: &str) -> (r: HistoryCommand)
    ensures
        r == history_command_spec(input@),
{
    let t = string_of(trim_str(input).as_slice());
    if eq_ignore_ascii_case(t.as_str(), "q") {
        HistoryCommand::Quit
    } else if eq_ignore_ascii_case(t.as_str(), "f") {
        HistoryCommand::AskFilter
    } else if eq_ignore_ascii_case(t.as_str(), "c") {
        HistoryCommand::ClearFilter
    } else {
        HistoryCommand::Refresh
    }
}

/// The filter keyword typed as `input`: the trimmed text, or `None` (the
/// current filter stays, "关键字为空，保持当前过滤。") when that is empty.
pub fn filter_keyword(input: &str) -> (r: Option<String>)
    ensures
        trim_seq(input@).len() == 0 ==> r is None,
        trim_seq(input@).len() > 0 ==> r is Some && r->0@ == trim_seq(input@),
{
    let t = trim_str(input);
    if t.len() == 0 { None } else { Some(string_of(t.as_slice())) }
}

/// A number right-aligned in two columns.
pub open spec fn pad2(n: nat) -> Seq<char> {
    if n < 10 { " "@ + dec_string(n) } else { dec_string(n) }
}

/// The listed line of the `i`-th record (counted from 0): its number from
/// 1, time, title, id, author ("未知" when blank), progress and state.
pub open spec fn history_line_spec(i: nat, it: DownloadHistoryRecord) -> Seq<char> {
    let author = if trim_seq(it.author@).len() == 0 { "未知"@ } else { trim_seq(it.author@) };
    pad2(i + 1) + ". ["@ + it.timestamp@ + "] 《"@ + it.book_name@ + "》("@ + it.book_id@ + ") | 作者: "@ + author
        + " | "@ + it.progress@ + " | 状态: "@ + it.status@
}

/// Appends the characters of `s` to `v`.
fn append(v: &mut Vec<char>, s: &str)
    ensures
        final(v)@ == old(v)@ + s@,
{
    v.extend_from_slice(chars_of(s).as_slice());
}

/// The listed line of the `i`-th record.
pub fn history_line(i: usize, it: &DownloadHistoryRecord) -> (s: String)
    requires
        i < usize::MAX,
    ensures
        s@ == history_line_spec(i as nat, *it),
{
    let k: u64 = (i + 1) as u64;
    assert(k as nat == (i + 1) as nat);
    let n = u64_to_dec(k);
    let mut v: Vec<char> = Vec::new();
    if i + 1 < 10 {
        v.push(' ');
    }
    v.extend_from_slice(n.as_slice());
    proof {
        reveal_strlit(" ");
        assert(v@ =~= pad2((i + 1) as nat));
    }
    append(&mut v, ". [");
    append(&mut v, it.timestamp.as_str());
    append(&mut v, "] 《");
    append(&mut v, it.book_name.as_str());
    append(&mut v, "》(");
    append(&mut v, it.book_id.as_str());
    append(&mut v, ") | 作者: ");
    let author = trim_str(it.author.as_str());
    if author.len() == 0 {
        append(&mut v, "未知");
    } else {
        v.extend_from_slice(author.as_slice());
    }
    append(&mut v, " | ");
    append(&mut v, it.progress.as_str());
    append(&mut v, " | 状态: ");
    append(&mut v, it.status.as_str());
    string_of(v.as_slice())
}

/// Whether the answer to "是否对该版本设置不再提醒？[y/N]" is yes: "y" or
/// "yes" in any ASCII case, surrounding whitespace ignored.
pub open spec fn is_yes(answer: Seq<char>) -> bool {
    lower_seq(trim_seq(answer)) == "y"@ || lower_seq(trim_seq(answer)) == "yes"@
}

/// Only an explicit yes silences the reminder: `y` and `yes` in any case
/// and with spaces around do; a blank answer, `n` and `no` do not.
pub proof fn lemma_yes_answers(answer: Seq<char>)
    ensures
        (lower_seq(trim_seq(answer)) == "y"@ || lower_seq(trim_seq(answer)) == "yes"@) ==> is_yes(answer),
        (trim_seq(answer).len() == 0 || lower_seq(trim_seq(answer)) == "n"@ || lower_seq(trim_seq(answer)) == "no"@)
            ==> !is_yes(answer),
{
    reveal_strlit("y");
    reveal_strlit("yes");
    reveal_strlit("n");
    reveal_strlit("no");
    let l = lower_seq(trim_seq(answer));
    if trim_seq(answer).len() == 0 {
        assert(l.len() == 0);
    }
    if l == "n"@ || l == "no"@ {
        assert(l[0] == 'n');
        assert("y"@[0] == 'y' && "yes"@[0] == 'y');
    }
}

/// Whether the answer is yes.
pub fn answer_is_yes(answer: &str) -> (b: bool)
    ensures
        b == is_yes(answer@),
{
    let lower = string_of(to_lower_chars(trim_str(answer).as_slice()).as_slice());
    str_eq(lower.as_str(), "y") || str_eq(lower.as_str(), "yes")
}

} // verus!
