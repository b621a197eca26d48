//! Helpers of the kernel shell.
use vstd::prelude::*;

verus! {

/// The name of month `month` (1 for January to 12 for December), or "Unknown"
/// for any other number.
pub open spec fn spec_month_name(month: u8) -> Seq<char> {
    if month == 1 {
        "January"@
    } else if month == 2 {
        "February"@
    } else if month == 3 {
        "March"@
    } else if month == 4 {
        "April"@
    } else if month == 5 {
        "May"@
    } else if month == 6 {
        "June"@
    } else if month == 7 {
        "July"@
    } else if month == 8 {
        "August"@
    } else if month == 9 {
        "September"@
    } else if month == 10 {
        "October"@
    } else if month == 11 {
        "November"@
    } else if month == 12 {
        "December"@
    } else {
        "Unknown"@
    }
}

/// The names of the months, from January to December.
pub open spec fn month_names() -> Seq<Seq<char>> {
    seq![
        "January"@, "February"@, "March"@, "April"@, "May"@, "June"@, "July"@, "August"@,
        "September"@, "October"@, "November"@, "December"@,
    ]
}

/// Month `m`, from 1 to 12, is named by the `m`-th name of the calendar, and
/// any other number is unknown.
pub proof fn lemma_month_names(m: u8)
    ensures
        1 <= m <= 12 ==> spec_month_name(m) == month_names()[m - 1],
        !(1 <= m <= 12) ==> spec_month_name(m) == "Unknown"@,
        month_names().len() == 12,
{
}

/// Returns the name of the month given its number, or "Unknown" if the number
/// is not in the range 1-12.
pub fn month_name(month: u8) -> (r: &'static str)
    ensures
        r@ == spec_month_name(month),
{
    match month {
        1 => "January",
        2 => "February",
        3 => "March",
        4 => "April",
        5 => "May",
        6 => "June",
        7 => "July",
        8 => "August",
        9 => "September",
        10 => "October",
        11 => "November",
        12 => "December",
        _ => "Unknown",
    }
}

/// A character with the Unicode `White_Space` property.
pub open spec fn is_white_space(c: char) -> bool {
    ||| '\u{9}' <= c <= '\u{d}'
    ||| c == ' '
    ||| c == '\u{85}'
    ||| c == '\u{a0}'
    ||| c == '\u{1680}'
    ||| '\u{2000}' <= c <= '\u{200a}'
    ||| c == '\u{2028}'
    ||| c == '\u{2029}'
    ||| c == '\u{202f}'
    ||| c == '\u{205f}'
    ||| c == '\u{3000}'
}

/// Tells whether a character has the Unicode `White_Space` property, as
/// `char::is_whitespace` does.
pub fn is_whitespace(c: char) -> (r: bool)
    ensures
        r == is_white_space(c),
{
    ('\u{9}' <= c && c <= '\u{d}') || c == ' ' || c == '\u{85}' || c == '\u{a0}' || c == '\u{1680}'
        || ('\u{2000}' <= c && c <= '\u{200a}') || c == '\u{2028}' || c == '\u{2029}' || c
        == '\u{202f}' || c == '\u{205f}' || c == '\u{3000}'
}

/// The index of the first character of `line` that is not white space, at or
/// after `from` (the length of the line if there is none).
pub open spec fn skip_white(line: Seq<char>, from: int) -> int
    decreases line.len() - from,
{
    if from >= line.len() || !is_white_space(line[from]) {
        from
    } else {
        skip_white(line, from + 1)
    }
}

/// The index of the first white space character of `line` at or after `from`
/// (the length of the line if there is none).
pub open spec fn skip_word(line: Seq<char>, from: int) -> int
    decreases line.len() - from,
{
    if from >= line.len() || is_white_space(line[from]) {
        from
    } else {
        skip_word(line, from + 1)
    }
}

/// The first word of `line`: its first run of characters without white space,
/// which is empty when the line holds white space only.
pub open spec fn first_word(line: Seq<char>) -> Seq<char> {
    let start = skip_white(line, 0);
    line.subrange(start, skip_word(line, start))
}

proof fn lemma_skip_white_bounds(line: Seq<char>, from: int)
    requires
        0 <= from <= line.len(),
    ensures
        from <= skip_white(line, from) <= line.len(),
        forall|k: int| from <= k < skip_white(line, from) ==> is_white_space(line[k]),
        skip_white(line, from) < line.len() ==> !is_white_space(line[skip_white(line, from)]),
    decreases line.len() - from,
{
    if from < line.len() && is_white_space(line[from]) {
        lemma_skip_white_bounds(line, from + 1);
    }
}

proof fn lemma_skip_word_bounds(line: Seq<char>, from: int)
    requires
        0 <= from <= line.len(),
    ensures
        from <= skip_word(line, from) <= line.len(),
        forall|k: int| from <= k < skip_word(line, from) ==> !is_white_space(line[k]),
        skip_word(line, from) < line.len() ==> is_white_space(line[skip_word(line, from)]),
    decreases line.len() - from,
{
    if from < line.len() && !is_white_space(line[from]) {
        lemma_skip_word_bounds(line, from + 1);
    }
}

/// Returns the first word of a line: its first run of characters without
/// white space, empty when the line holds white space only.
pub fn first_word_of(line: &Vec<char>) -> (r: Vec<char>)
    ensures
        r@ == first_word(line@),
{
    let n = line.len();
    let mut start: usize = 0;
    while start < n && is_whitespace(line[start])
        invariant
            start <= n,
            n == line@.len(),
            skip_white(line@, 0) == skip_white(line@, start as int),
        decreases n - start,
    {
        start = start + 1;
    }
    proof {
        lemma_skip_white_bounds(line@, start as int);
    }
    let mut end: usize = start;
    let mut word: Vec<char> = Vec::new();
    while end < n && !is_whitespace(line[end])
        invariant
            start <= end <= n,
            n == line@.len(),
            skip_word(line@, start as int) == skip_word(line@, end as int),
            word@ == line@.subrange(start as int, end as int),
        decreases n - end,
    {
        word.push(line[end]);
        end = end + 1;
    }
    proof {
        lemma_skip_word_bounds(line@, end as int);
    }
    word
}

/// A command of the shell.
#[derive(Debug, Clone, Copy, PartialEq, Eq, Structural)]
pub enum Command {
    /// Reboots the machine after a countdown.
    Reboot,
    /// Powers off the machine after a countdown.
    Poweroff,
    /// Clears the screen.
    Clear,
    /// Shows how much memory is used.
    Meminfo,
    /// Shows the date.
    Date,
    /// Any other word: the shell answers that the command is unknown.
    Unknown,
}

/// What the shell does with a line it has read.
#[derive(Debug, Clone, Copy, PartialEq, Eq, Structural)]
pub enum ShellLine {
    /// The line is empty: the shell prompts again.
    Empty,
    /// The line is not empty but holds white space only, so it has no first
    /// word; taking the first word fails (the shell panics on such a line).
    Blank,
    /// The line starts with this command.
    Run(Command),
}

/// The command named by a word.
pub open spec fn command_of(word: Seq<char>) -> Command {
    if word == seq!['r', 'e', 'b', 'o', 'o', 't'] {
        Command::Reboot
    } else if word == seq!['p', 'o', 'w', 'e', 'r', 'o', 'f', 'f'] {
        Command::Poweroff
    } else if word == seq!['c', 'l', 'e', 'a', 'r'] {
        Command::Clear
    } else if word == seq!['m', 'e', 'm', 'i', 'n', 'f', 'o'] {
        Command::Meminfo
    } else if word == seq!['d', 'a', 't', 'e'] {
        Command::Date
    } else {
        Command::Unknown
    }
}

/// What the shell does with `line`.
pub open spec fn shell_line(line: Seq<char>) -> ShellLine {
    if line.len() == 0 {
        ShellLine::Empty
    } else if first_word(line).len() == 0 {
        ShellLine::Blank
    } else {
        ShellLine::Run(command_of(first_word(line)))
    }
}

/// Tells whether `word` is exactly `expected`.
fn word_is(word: &Vec<char>, expected: &[char]) -> (r: bool)
    ensures
        r == (word@ == expected@),
{
    if word.len() != expected.len() {
        return false;
    }
    let mut i: usize = 0;
    while i < word.len()
        invariant
            i <= word@.len(),
            word@.len() == expected@.len(),
            forall|k: int| 0 <= k < i ==> word@[k] == expected@[k],
        decreases word@.len() - i,
    {
        if word[i] != expected[i] {
            return false;
        }
        i = i + 1;
    }
    assert(word@ =~= expected@);
    true
}

/// Decides what the shell does with a line: nothing when it is empty,
/// otherwise the command named by its first word.
pub fn parse_line(line: &Vec<char>) -> (r: ShellLine)
    ensures
        r == shell_line(line@),
{
    if line.len() == 0 {
        return ShellLine::Empty;
    }
    let word = first_word_of(line);
    if word.len() == 0 {
        return ShellLine::Blank;
    }
    let reboot = ['r', 'e', 'b', 'o', 'o', 't'];
    let poweroff = ['p', 'o', 'w', 'e', 'r', 'o', 'f', 'f'];
    let clear = ['c', 'l', 'e', 'a', 'r'];
    let meminfo = ['m', 'e', 'm', 'i', 'n', 'f', 'o'];
    let date = ['d', 'a', 't', 'e'];
    assert(reboot@ =~= seq!['r', 'e', 'b', 'o', 'o', 't']);
    assert(poweroff@ =~= seq!['p', 'o', 'w', 'e', 'r', 'o', 'f', 'f']);
    assert(clear@ =~= seq!['c', 'l', 'e', 'a', 'r']);
    assert(meminfo@ =~= seq!['m', 'e', 'm', 'i', 'n', 'f', 'o']);
    assert(date@ =~= seq!['d', 'a', 't', 'e']);
    let command = if word_is(&word, &reboot) {
        Command::Reboot
    } else if word_is(&word, &poweroff) {
        Command::Poweroff
    } else if word_is(&word, &clear) {
        Command::Clear
    } else if word_is(&word, &meminfo) {
        Command::Meminfo
    } else if word_is(&word, &date) {
        Command::Date
    } else {
        Command::Unknown
    };
    ShellLine::Run(command)
}

/// The memory usage shown by the `meminfo` command, in KiB and in percents of
/// the total memory (rounded down).
#[derive(Debug, Clone, Copy, PartialEq, Eq, Structural)]
pub struct MemInfo {
    /// The memory in use (not free), in KiB.
    pub used: usize,
    /// The total memory, in KiB.
    pub total: usize,
    /// The part of the memory in use, in percent.
    pub used_percent: usize,
    /// The memory used by the kernel, in KiB.
    pub kernel: usize,
    /// The part of the memory used by the kernel, in percent.
    pub kernel_percent: usize,
}

impl MemInfo {
    /// Computes the memory usage from the number of physical frames of 4 KiB,
    /// of free frames and of frames used by the kernel. There must be at least
    /// one frame and no more free frames than frames; the total in KiB, and
    /// the used and kernel memory in KiB times 100, must fit in a `usize`.
    pub fn new(frames: usize, free: usize, kernel: usize) -> (r: Self)
        requires
            0 < frames,
            free <= frames,
            frames * 4 <= usize::MAX,
            (frames - free) * 400 <= usize::MAX,
            kernel * 400 <= usize::MAX,
        ensures
            r.total == frames * 4,
            r.used == (frames - free) * 4,
            r.used_percent == (frames - free) * 4 * 100 / (frames * 4),
            r.kernel == kernel * 4,
            r.kernel_percent == kernel * 4 * 100 / (frames * 4),
    {
        let total = frames * 4;
        let free_kib = free * 4;
        let kernel_kib = kernel * 4;
        let used = total - free_kib;
        MemInfo {
            used,
            total,
            used_percent: used * 100 / total,
            kernel: kernel_kib,
            kernel_percent: kernel_kib * 100 / total,
        }
    }
}

/// The usage percentages are between 0 and 100: no more memory is in use
/// than there is.
pub proof fn lemma_usage_at_most_total(frames: int, free: int)
    requires
        0 < frames,
        0 <= free <= frames,
    ensures
        0 <= (frames - free) * 4 * 100 / (frames * 4) <= 100,
        (frames - free) * 4 * 100 / (frames * 4) == (frames - free) * 100 / frames,
{
    let used = frames - free;
    let q = (used * 100) / frames;
    let r = (used * 100) % frames;
    vstd::arithmetic::div_mod::lemma_fundamental_div_mod(used * 100, frames);
    assert(used * 4 * 100 == q * (frames * 4) + 4 * r) by (nonlinear_arith)
        requires
            used * 100 == frames * q + r,
    ;
    vstd::arithmetic::div_mod::lemma_fundamental_div_mod_converse(
        used * 4 * 100,
        frames * 4,
        q,
        4 * r,
    );
    assert(0 <= q <= 100) by (nonlinear_arith)
        requires
            used * 100 == frames * q + r,
            0 <= r < frames,
            0 <= used <= frames,
    ;
}

proof fn lemma_skip_shifted(w: char, line: Seq<char>, k: int)
    requires
        0 <= k <= line.len(),
    ensures
        skip_white(seq![w] + line, k + 1) == skip_white(line, k) + 1,
        skip_word(seq![w] + line, k + 1) == skip_word(line, k) + 1,
    decreases line.len() - k,
{
    let pre = seq![w] + line;
    if k < line.len() {
        assert(pre[k + 1] == line[k]);
        lemma_skip_shifted(w, line, k + 1);
    }
}

/// White space before the first word changes nothing: a non-empty line runs
/// the same command with or without a leading white space character.
pub proof fn lemma_leading_white_space_ignored(w: char, line: Seq<char>)
    requires
        is_white_space(w),
        line.len() > 0,
    ensures
        first_word(seq![w] + line) == first_word(line),
        shell_line(seq![w] + line) == shell_line(line),
{
    let pre = seq![w] + line;
    lemma_skip_shifted(w, line, 0);
    let start = skip_white(line, 0);
    lemma_skip_white_bounds(line, 0);
    lemma_skip_shifted(w, line, start);
    lemma_skip_word_bounds(line, start);
    assert(skip_white(pre, 0) == start + 1);
    assert(pre.subrange(start + 1, skip_word(line, start) + 1) =~= line.subrange(
        start,
        skip_word(line, start),
    ));
}

} // verus!
