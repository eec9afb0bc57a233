//! The simulation tasks: the compressed checkpoints (`*.gz`) found under
//! the image directory, each by its path there, and the random choice of the
//! one to run.

use vstd::prelude::*;
use rand::Rng;
use crate::ram::chars_of;
use crate::command::strings_view;

verus! {

/// Whether `s` ends with `suffix`.
pub open spec fn ends_with(s: Seq<char>, suffix: Seq<char>) -> bool {
    s.len() >= suffix.len() && s.skip(s.len() - suffix.len()) == suffix
}

/// The suffix of a task file.
pub open spec fn gz_suffix() -> Seq<char> {
    seq!['.', 'g', 'z']
}

/// The paths among `entries` that are valid UTF-8 (`Some`) and end in
/// `.gz`, in order.
pub open spec fn spec_tasks(entries: Seq<Option<Seq<char>>>) -> Seq<Seq<char>>
    decreases entries.len(),
{
    if entries.len() == 0 {
        Seq::empty()
    } else {
        let rest = spec_tasks(entries.drop_last());
        match entries.last() {
            Some(name) => if ends_with(name, gz_suffix()) {
                rest.push(name)
            } else {
                rest
            },
            None => rest,
        }
    }
}

/// The views of the entries of a directory walk.
pub open spec fn entries_view(entries: Seq<Option<String>>) -> Seq<Option<Seq<char>>> {
    entries.map_values(
        |e: Option<String>|
            match e {
                Some(s) => Some(s@),
                None => None,
            },
    )
}

fn is_task_path(name: &String) -> (b: bool)
    ensures
        b == ends_with(name@, gz_suffix()),
{
    let chars = chars_of(name.as_str());
    let n = chars.len();
    if n < 3 {
        return false;
    }
    let b = chars[n - 3] == '.' && chars[n - 2] == 'g' && chars[n - 1] == 'z';
    proof {
        let tail = name@.skip(n - 3);
        if b {
            assert(tail =~= gz_suffix());
        } else {
            if tail == gz_suffix() {
                assert(tail[0] == chars@[n - 3]);
                assert(tail[1] == chars@[n - 2]);
                assert(tail[2] == chars@[n - 1]);
            }
        }
    }
    b
}

/// The tasks among the entries a walk of the image directory found, each
/// given by its path (the image directory joined with its place under it,
/// so that the simulator finds it from any working directory): those whose
/// path is valid UTF-8 (`Some`) and ends in `.gz`, in the order of the walk.
pub fn tasks_list(entries: &Vec<Option<String>>) -> (tasks: Vec<String>)
    ensures
        strings_view(tasks@) == spec_tasks(entries_view(entries@)),
{
    let mut tasks: Vec<String> = Vec::new();
    let mut i: usize = 0;
    proof {
        assert(entries_view(entries@).take(0) =~= Seq::<Option<Seq<char>>>::empty());
        assert(strings_view(tasks@) =~= Seq::<Seq<char>>::empty());
    }
    while i < entries.len()
        invariant
            i <= entries.len(),
            strings_view(tasks@) == spec_tasks(entries_view(entries@).take(i as int)),
        decreases entries.len() - i,
    {
        let ghost before = tasks@;
        proof {
            assert(entries_view(entries@).take(i + 1).drop_last() =~= entries_view(entries@).take(
                i as int,
            ));
            assert(entries_view(entries@).take(i + 1).last() == entries_view(entries@)[i as int]);
        }
        match &entries[i] {
            Some(name) => {
                if is_task_path(name) {
                    tasks.push(name.clone());
                    assert(strings_view(tasks@) =~= strings_view(before).push(name@));
                }
            },
            None => {},
        }
        i += 1;
    }
    assert(entries_view(entries@).take(entries.len() as int) =~= entries_view(entries@));
    tasks
}

/// A number drawn uniformly from `0..n`.
///
/// Trusted: calls `rand::Rng::gen_range` with the range `0..n` on the
/// thread-local generator `rand::thread_rng()`. rand documents that the
/// value lies in the half-open range and that the call panics on an empty
/// range, hence the `requires`; which value comes is chance and is left free.
#[verifier::external_body]
fn random_below(n: usize) -> (r: usize)
    requires
        n > 0,
    ensures
        r < n,
{
    rand::thread_rng().gen_range(0..n)
}

/// The task at position `i`.
pub fn task_at(tasks: &Vec<String>, i: usize) -> (task: String)
    requires
        i < tasks.len(),
    ensures
        task@ == tasks@[i as int]@,
{
    tasks[i].clone()
}

/// One of `tasks`, picked at random.
pub fn pick_task(tasks: &Vec<String>) -> (task: String)
    requires
        tasks.len() > 0,
    ensures
        strings_view(tasks@).contains(task@),
{
    let i = random_below(tasks.len());
    let task = task_at(tasks, i);
    assert(strings_view(tasks@)[i as int] == task@);
    task
}

/// The tasks are exactly the valid paths among the entries that end in
/// `.gz`: each task is such an entry, and each such entry is a task.
pub proof fn lemma_tasks_are_gz_entries(entries: Seq<Option<Seq<char>>>)
    ensures
        forall|t: Seq<char>| #[trigger] spec_tasks(entries).contains(t) ==> entries.contains(Some(t))
            && t.len() >= 3 && t.skip(t.len() - 3) == seq!['.', 'g', 'z'],
        forall|t: Seq<char>|
            entries.contains(Some(t)) && t.len() >= 3 && t.skip(t.len() - 3) == seq!['.', 'g', 'z']
                ==> #[trigger] spec_tasks(entries).contains(t),
    decreases entries.len(),
{
    if entries.len() > 0 {
        let rest = entries.drop_last();
        lemma_tasks_are_gz_entries(rest);
        assert(gz_suffix() =~= seq!['.', 'g', 'z']);
        assert forall|t: Seq<char>| #[trigger] spec_tasks(entries).contains(t) implies entries.contains(
            Some(t),
        ) && t.len() >= 3 && t.skip(t.len() - 3) == seq!['.', 'g', 'z'] by {
            if spec_tasks(rest).contains(t) {
                let i = choose|i: int| 0 <= i < rest.len() && rest[i] == Some(t);
                assert(entries[i] == Some(t));
            } else {
                assert(entries[entries.len() - 1] == Some(t));
            }
        }
        assert forall|t: Seq<char>|
            entries.contains(Some(t)) && t.len() >= 3 && t.skip(t.len() - 3) == seq!['.', 'g', 'z']
                implies #[trigger] spec_tasks(entries).contains(t) by {
            let i = choose|i: int| 0 <= i < entries.len() && entries[i] == Some(t);
            if i < entries.len() - 1 {
                assert(rest[i] == Some(t));
                assert(rest.contains(Some(t)));
                let r = spec_tasks(rest);
                assert(r.contains(t));
                let k = choose|k: int| 0 <= k < r.len() && r[k] == t;
                match entries.last() {
                    Some(name) => if ends_with(name, gz_suffix()) {
                        assert(r.push(name)[k] == t);
                        assert(spec_tasks(entries) == r.push(name));
                    } else {
                        assert(spec_tasks(entries) == r);
                    },
                    None => {
                        assert(spec_tasks(entries) == r);
                    },
                }
            } else {
                let r = spec_tasks(rest);
                assert(entries.last() == Some(t));
                assert(ends_with(t, gz_suffix()));
                assert(spec_tasks(entries) == r.push(t));
                assert(r.push(t)[r.len() as int] == t);
            }
        }
    }
}


} // verus!
