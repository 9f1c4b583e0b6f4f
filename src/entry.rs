//! The day's journal entry: its markdown text, its commit message and its
//! path inside the repository, all made from one date and one task list.

use crate::date::{
    decimal, digit_char, iso_date, iso_text, long_date_with_weekday, pad4, long_text, month_abbrev, two_digits, weekday_name,
    weekday_number, weekday_of, year_text, Date,
};
use crate::input::texts;
use vstd::prelude::*;

verus! {

/// One bullet line of the entry file per task: ` - task` and a line break.
pub open spec fn bullet_lines(tasks: Seq<Seq<char>>) -> Seq<char>
    decreases tasks.len(),
{
    if tasks.len() == 0 {
        Seq::empty()
    } else {
        bullet_lines(tasks.drop_last()) + " - "@ + tasks.last() + "\n"@
    }
}

/// The markdown document: a level-one heading, a blank line, the bullets.
pub open spec fn entry_text(title: Seq<char>, tasks: Seq<Seq<char>>) -> Seq<char> {
    "# "@ + title + "\n\n"@ + bullet_lines(tasks)
}

/// The bullets of the commit message: each task on a new line after ` - `.
pub open spec fn message_bullets(tasks: Seq<Seq<char>>) -> Seq<char>
    decreases tasks.len(),
{
    if tasks.len() == 0 {
        Seq::empty()
    } else {
        message_bullets(tasks.drop_last()) + "\n - "@ + tasks.last()
    }
}

/// The commit message: the title, a line break, then the bullets.
pub open spec fn message_text(title: Seq<char>, tasks: Seq<Seq<char>>) -> Seq<char> {
    title + "\n"@ + message_bullets(tasks)
}

/// Where the entry of a day lives, relative to the repository root.
pub open spec fn entry_path_text(d: Date) -> Seq<char> {
    "entries/"@ + iso_text(d) + ".md"@
}

/// A journal entry ready to be written and committed.
pub struct Entry {
    /// Path of the entry file, relative to the repository root.
    pub path: String,
    /// Markdown content of the entry file.
    pub content: String,
    /// Message of the commit that records the entry.
    pub message: String,
}

impl Entry {
    /// The entry is the one of day `d` (falling on `weekday`) with `tasks`.
    pub open spec fn describes(&self, d: Date, weekday: int, tasks: Seq<Seq<char>>) -> bool {
        &&& self.path@ == entry_path_text(d)
        &&& self.content@ == entry_text(long_text(d, weekday), tasks)
        &&& self.message@ == message_text(long_text(d, weekday), tasks)
    }
}

/// The markdown document for a title and a task list.
pub fn entry_markdown(title: &str, tasks: &Vec<String>) -> (r: String)
    ensures
        r@ == entry_text(title@, texts(tasks@)),
{
    let ghost ts = texts(tasks@);
    let mut s = String::new();
    s.append("# ");
    s.append(title);
    s.append("\n\n");
    let mut i: usize = 0;
    while i < tasks.len()
        invariant
            ts == texts(tasks@),
            i <= tasks.len(),
            s@ == "# "@ + title@ + "\n\n"@ + bullet_lines(ts.take(i as int)),
        decreases tasks.len() - i,
    {
        s.append(" - ");
        s.append(tasks[i].as_str());
        s.append("\n");
        assert(ts.take(i + 1).drop_last() =~= ts.take(i as int));
        i = i + 1;
    }
    assert(ts.take(i as int) =~= ts);
    s
}

/// The commit message for a title and a task list.
pub fn commit_message(title: &str, tasks: &Vec<String>) -> (r: String)
    ensures
        r@ == message_text(title@, texts(tasks@)),
{
    let ghost ts = texts(tasks@);
    let mut s = String::new();
    s.append(title);
    s.append("\n");
    let mut i: usize = 0;
    while i < tasks.len()
        invariant
            ts == texts(tasks@),
            i <= tasks.len(),
            s@ == title@ + "\n"@ + message_bullets(ts.take(i as int)),
        decreases tasks.len() - i,
    {
        s.append("\n - ");
        s.append(tasks[i].as_str());
        assert(ts.take(i + 1).drop_last() =~= ts.take(i as int));
        i = i + 1;
    }
    assert(ts.take(i as int) =~= ts);
    s
}

/// The path of the entry of day `d`, relative to the repository root.
pub fn entry_path(d: &Date) -> (r: String)
    requires
        d.wf(),
    ensures
        r@ == entry_path_text(*d),
{
    let mut s = String::new();
    s.append("entries/");
    let day = iso_date(d);
    s.append(day.as_str());
    s.append(".md");
    s
}

/// The entry of day `d`, given the weekday it falls on (Monday is 0): the
/// path, the file and the message all come from this one date and list.
pub fn prepare_entry(d: &Date, weekday: u8, tasks: &Vec<String>) -> (r: Entry)
    requires
        d.wf(),
    ensures
        r.describes(*d, weekday as int, texts(tasks@)),
{
    let title = long_date_with_weekday(d, weekday);
    let path = entry_path(d);
    let content = entry_markdown(title.as_str(), tasks);
    let message = commit_message(title.as_str(), tasks);
    Entry { path, content, message }
}

/// The entry of day `d` with `tasks`.
pub fn entry_for(d: &Date, tasks: &Vec<String>) -> (r: Entry)
    requires
        d.wf(),
    ensures
        r.describes(
            *d,
            weekday_number(d.year as int, d.month as int, d.day as int),
            texts(tasks@),
        ),
{
    let w = weekday_of(d);
    prepare_entry(d, w, tasks)
}

/// The path and the message of an entry name the same day: the path holds
/// the year, month and day of `d`, and the message opens with the weekday,
/// day, month and year of that same `d`.
pub proof fn lemma_path_and_message_agree(d: Date, weekday: int, tasks: Seq<Seq<char>>)
    ensures
        entry_path_text(d) == "entries/"@ + year_text(d.year as int) + "-"@ + two_digits(
            d.month as int,
        ) + "-"@ + two_digits(d.day as int) + ".md"@,
        message_text(long_text(d, weekday), tasks).take(long_text(d, weekday).len() as int)
            == weekday_name(weekday) + " "@ + two_digits(d.day as int) + " "@ + month_abbrev(
            d.month as int,
        ) + " "@ + year_text(d.year as int),
{
    reveal_strlit("-");
    assert(entry_path_text(d) =~= "entries/"@ + year_text(d.year as int) + "-"@ + two_digits(
        d.month as int,
    ) + "-"@ + two_digits(d.day as int) + ".md"@);
    let t = long_text(d, weekday);
    assert(message_text(t, tasks).take(t.len() as int) =~= t);
}

/// With no tasks, the entry is its heading line and a blank line, with no
/// bullet line, and the message is the title alone.
pub proof fn lemma_no_tasks_heading_only(title: Seq<char>)
    ensures
        entry_text(title, Seq::empty()) == "# "@ + title + "\n\n"@,
        message_text(title, Seq::empty()) == title + "\n"@,
{
    assert(entry_text(title, Seq::empty()) =~= "# "@ + title + "\n\n"@);
    assert(message_text(title, Seq::empty()) =~= title + "\n"@);
}

/// No character of `s` is an upper-case ASCII letter.
pub open spec fn lower_case(s: Seq<char>) -> bool {
    forall|i: int| 0 <= i < s.len() ==> !('A' <= #[trigger] s[i] <= 'Z')
}

proof fn lemma_decimal_lower_case(n: nat)
    ensures
        lower_case(decimal(n)),
    decreases n,
{
    if n >= 10 {
        lemma_decimal_lower_case(n / 10);
    }
    assert(forall|k: int| '0' <= #[trigger] digit_char(k) <= '9');
}

proof fn lemma_concat_lower_case(a: Seq<char>, b: Seq<char>)
    requires
        lower_case(a),
        lower_case(b),
    ensures
        lower_case(a + b),
{
    assert forall|i: int| 0 <= i < (a + b).len() implies !('A' <= #[trigger] (a + b)[i] <= 'Z') by {
        if i >= a.len() {
            assert((a + b)[i] == b[i - a.len()]);
        }
    }
}

/// The entry path is lower case: it holds no upper-case letter.
pub proof fn lemma_entry_path_lower_case(d: Date)
    ensures
        lower_case(entry_path_text(d)),
{
    reveal_strlit("entries/");
    reveal_strlit(".md");
    let y = d.year as int;
    let n: nat = if y < 0 { (-y) as nat } else { y as nat };
    lemma_decimal_lower_case(n);
    assert(lower_case(seq!['0', '0', '0']));
    assert(lower_case(seq!['0', '0']));
    assert(lower_case(seq!['0']));
    lemma_concat_lower_case(seq!['0', '0', '0'], decimal(n));
    lemma_concat_lower_case(seq!['0', '0'], decimal(n));
    lemma_concat_lower_case(seq!['0'], decimal(n));
    assert(lower_case(pad4(n)));
    assert(lower_case(seq!['-']));
    assert(lower_case(seq!['+']));
    lemma_concat_lower_case(seq!['-'], pad4(n));
    lemma_concat_lower_case(seq!['+'], pad4(n));
    assert(lower_case(year_text(y)));
    assert(forall|k: int| '0' <= #[trigger] digit_char(k) <= '9');
    assert(lower_case(two_digits(d.month as int)));
    assert(lower_case(two_digits(d.day as int)));
    lemma_concat_lower_case(year_text(y), seq!['-']);
    lemma_concat_lower_case(year_text(y) + seq!['-'], two_digits(d.month as int));
    lemma_concat_lower_case(year_text(y) + seq!['-'] + two_digits(d.month as int), seq!['-']);
    lemma_concat_lower_case(
        year_text(y) + seq!['-'] + two_digits(d.month as int) + seq!['-'],
        two_digits(d.day as int),
    );
    assert(lower_case("entries/"@));
    assert(lower_case(".md"@));
    lemma_concat_lower_case("entries/"@, iso_text(d));
    lemma_concat_lower_case("entries/"@ + iso_text(d), ".md"@);
}

} // verus!
