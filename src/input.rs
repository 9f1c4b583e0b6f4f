//! Collecting the day's tasks from lines of input.

use vstd::prelude::*;

verus! {

/// What `str::trim` leaves of a line.
pub uninterp spec fn trim_of(s: Seq<char>) -> Seq<char>;

/// Relies on `str::trim`: the line without its leading and trailing
/// whitespace, which depends on the characters alone.
#[verifier::external_body]
fn trimmed(s: &str) -> (r: &str)
    ensures
        r@ == trim_of(s@),
{
    s.trim()
}

/// The word that ends the list of tasks.
pub const SENTINEL: &'static str = "done";

/// A line ends the list when, trimmed, it is exactly the sentinel word.
pub open spec fn is_sentinel(line: Seq<char>) -> bool {
    trim_of(line) == "done"@
}

/// The character content of each string.
pub open spec fn texts(v: Seq<String>) -> Seq<Seq<char>> {
    v.map_values(|s: String| s@)
}

/// The lines before the first sentinel line, in order.
pub open spec fn tasks_before_sentinel(lines: Seq<Seq<char>>) -> Seq<Seq<char>>
    decreases lines.len(),
{
    if lines.len() == 0 {
        Seq::empty()
    } else if is_sentinel(lines[0]) {
        Seq::empty()
    } else {
        seq![lines[0]] + tasks_before_sentinel(lines.drop_first())
    }
}

fn same_text(a: &str, b: &str) -> (r: bool)
    ensures
        r == (a@ == b@),
{
    let n = a.unicode_len();
    if n != b.unicode_len() {
        return false;
    }
    let mut i: usize = 0;
    while i < n
        invariant
            n == a@.len() == b@.len(),
            i <= n,
            a@.subrange(0, i as int) == b@.subrange(0, i as int),
        decreases n - i,
    {
        if a.get_char(i) != b.get_char(i) {
            return false;
        }
        assert(a@.subrange(0, i + 1) =~= a@.subrange(0, i as int).push(a@[i as int]));
        assert(b@.subrange(0, i + 1) =~= b@.subrange(0, i as int).push(b@[i as int]));
        i = i + 1;
    }
    assert(a@ =~= a@.subrange(0, n as int));
    assert(b@ =~= b@.subrange(0, n as int));
    true
}

/// Whether the line ends the list of tasks.
pub fn is_end_of_tasks(line: &str) -> (r: bool)
    ensures
        r == is_sentinel(line@),
{
    same_text(trimmed(line), SENTINEL)
}

/// Takes one line of input: the sentinel ends the list and is not kept; any
/// other line, blank ones included, is added at the end.
pub fn accept_line(tasks: &mut Vec<String>, line: String) -> (finished: bool)
    ensures
        finished == is_sentinel(line@),
        finished ==> final(tasks)@ == old(tasks)@,
        !finished ==> final(tasks)@ == old(tasks)@.push(line),
{
    if is_end_of_tasks(line.as_str()) {
        true
    } else {
        tasks.push(line);
        false
    }
}

proof fn lemma_prefix_kept(lines: Seq<Seq<char>>, k: int)
    requires
        0 <= k <= lines.len(),
        forall|i: int| 0 <= i < k ==> !is_sentinel(#[trigger] lines[i]),
    ensures
        tasks_before_sentinel(lines) == lines.take(k) + tasks_before_sentinel(lines.skip(k)),
    decreases k,
{
    if k == 0 {
        assert(lines.skip(0) =~= lines);
        assert(lines.take(0) + tasks_before_sentinel(lines) =~= tasks_before_sentinel(lines));
    } else {
        let rest = lines.drop_first();
        assert forall|i: int| 0 <= i < k - 1 implies !is_sentinel(#[trigger] rest[i]) by {
            assert(rest[i] == lines[i + 1]);
        }
        lemma_prefix_kept(rest, k - 1);
        assert(rest.skip(k - 1) =~= lines.skip(k));
        assert(seq![lines[0]] + rest.take(k - 1) =~= lines.take(k));
        assert(!is_sentinel(lines[0]));
        assert(tasks_before_sentinel(lines) == seq![lines[0]] + tasks_before_sentinel(rest));
        assert(tasks_before_sentinel(lines) =~= lines.take(k) + tasks_before_sentinel(
            lines.skip(k),
        ));
    }
}

/// The tasks that a sequence of input lines gives: every line before the
/// first sentinel line, in order; the rest is not read.
pub fn collect_tasks(lines: &Vec<String>) -> (tasks: Vec<String>)
    ensures
        texts(tasks@) == tasks_before_sentinel(texts(lines@)),
{
    let ghost all = texts(lines@);
    let mut tasks: Vec<String> = Vec::new();
    let mut i: usize = 0;
    while i < lines.len()
        invariant
            all == texts(lines@),
            i <= lines.len(),
            texts(tasks@) == all.take(i as int),
            forall|j: int| 0 <= j < i ==> !is_sentinel(#[trigger] all[j]),
        decreases lines.len() - i,
    {
        let line = lines[i].clone();
        let ghost before = tasks@;
        assert(line@ == all[i as int]);
        let finished = accept_line(&mut tasks, line);
        if finished {
            proof {
                lemma_prefix_kept(all, i as int);
                assert(all.skip(i as int)[0] == all[i as int]);
                assert(tasks_before_sentinel(all.skip(i as int)) == Seq::<Seq<char>>::empty());
                assert(all.take(i as int) + Seq::<Seq<char>>::empty() =~= all.take(i as int));
            }
            return tasks;
        }
        assert(tasks@ == before.push(line));
        assert(texts(tasks@) =~= texts(before).push(all[i as int]));
        assert(all.take(i + 1) =~= all.take(i as int).push(all[i as int]));
        i = i + 1;
    }
    proof {
        lemma_prefix_kept(all, i as int);
        assert(all.skip(i as int) =~= Seq::<Seq<char>>::empty());
        assert(all.take(i as int) =~= all);
    }
    tasks
}

/// With no sentinel among the lines, the task list is every line, in order.
pub proof fn lemma_all_lines_kept(lines: Seq<Seq<char>>)
    requires
        forall|i: int| 0 <= i < lines.len() ==> !is_sentinel(#[trigger] lines[i]),
    ensures
        tasks_before_sentinel(lines) == lines,
{
    lemma_prefix_kept(lines, lines.len() as int);
    assert(lines.skip(lines.len() as int) =~= Seq::<Seq<char>>::empty());
    assert(lines.take(lines.len() as int) =~= lines);
}

/// A sentinel line never appears among the collected tasks, and the tasks
/// are the lines that open the input.
pub proof fn lemma_sentinel_never_kept(lines: Seq<Seq<char>>)
    ensures
        tasks_before_sentinel(lines).len() <= lines.len(),
        forall|i: int|
            0 <= i < tasks_before_sentinel(lines).len() ==> !is_sentinel(
                #[trigger] tasks_before_sentinel(lines)[i],
            ) && tasks_before_sentinel(lines)[i] == lines[i],
    decreases lines.len(),
{
    if lines.len() > 0 && !is_sentinel(lines[0]) {
        let rest = lines.drop_first();
        lemma_sentinel_never_kept(rest);
        let t = tasks_before_sentinel(lines);
        assert forall|i: int| 0 <= i < t.len() implies !is_sentinel(#[trigger] t[i]) && t[i]
            == lines[i] by {
            if i > 0 {
                assert(t[i] == tasks_before_sentinel(rest)[i - 1]);
            }
        }
    }
}

} // verus!
