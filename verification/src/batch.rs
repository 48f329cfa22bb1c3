//! Planning a run: one job for a single size, or eight for all sizes.

use vstd::prelude::*;
use vstd::string::*;
use crate::job::{EncodeJob, EncodeOutcome, JobView};
use crate::names::{
    base_name, batch_dir, decimal, decimal_text, dir_suffix, icon_suffix, last_component,
    lemma_decimal_has_no_separator, lemma_decimal_injective, lemma_last_component, plain_path,
    single_path, sized_path,
};
use crate::size::{canonical_sides, IconSize, CANONICAL_COUNT};

verus! {

/// The number of jobs of a run for all sizes: one under the plain name and
/// one for each canonical size.
pub const BATCH_JOBS: usize = 8;

/// What is to be done for a run.
#[derive(Clone, Debug, PartialEq, Eq)]
pub enum Plan {
    /// Write one file.
    Single(EncodeJob),
    /// Create the directory `dir` with its parents, then run every one of
    /// `jobs`, each on its own: none waits for another, and none is given
    /// up because another failed.
    Batch { dir: String, jobs: Vec<EncodeJob> },
}

/// The job of a run for a single size.
pub open spec fn single_job(output: Seq<char>, side: nat, force: bool) -> JobView {
    JobView { path: single_path(output), side, force }
}

/// The jobs of a run for all sizes: first the file under the plain name at
/// the requested size, then one file for each canonical size in ascending
/// order.
pub open spec fn batch_jobs(output: Seq<char>, side: nat, force: bool) -> Seq<JobView> {
    seq![JobView { path: plain_path(output), side, force }] + Seq::new(
        canonical_sides().len(),
        |i: int|
            JobView {
                path: sized_path(output, canonical_sides()[i]),
                side: canonical_sides()[i],
                force,
            },
    )
}

/// Whether the jobs are, in order, the given ones.
pub open spec fn jobs_are(jobs: Seq<EncodeJob>, expected: Seq<JobView>) -> bool {
    &&& jobs.len() == expected.len()
    &&& forall|i: int| 0 <= i < jobs.len() ==> (#[trigger] jobs[i])@ == expected[i]
}

/// Whether every job wrote its file.
pub open spec fn all_saved(outcomes: Seq<EncodeOutcome>) -> bool {
    forall|i: int| 0 <= i < outcomes.len() ==> (#[trigger] outcomes[i]) is Saved
}

/// Whether `path` names a file directly in the directory `dir`.
pub open spec fn directly_in(path: Seq<char>, dir: Seq<char>) -> bool {
    &&& path.len() > dir.len()
    &&& path.take(dir.len() as int) == dir
    &&& path[dir.len() as int] == '/'
    &&& !path.skip(dir.len() as int + 1).contains('/')
}

/// The files of a batch for different sizes have different paths.
pub proof fn lemma_sized_paths_differ(output: Seq<char>, a: nat, b: nat)
    requires
        a != b,
    ensures
        sized_path(output, a) != sized_path(output, b),
{
    let head = batch_dir(output) + seq!['/'] + last_component(output) + seq!['_'];
    let pa = sized_path(output, a);
    let pb = sized_path(output, b);
    if pa == pb {
        assert(pa.len() == head.len() + decimal(a).len() + 4);
        assert(pb.len() == head.len() + decimal(b).len() + 4);
        assert(pa.subrange(head.len() as int, head.len() as int + decimal(a).len()) =~= decimal(a));
        assert(pb.subrange(head.len() as int, head.len() as int + decimal(b).len()) =~= decimal(b));
        lemma_decimal_injective(a, b);
    }
}

/// The plain file of a batch has another path than the file of any size.
pub proof fn lemma_plain_path_differs(output: Seq<char>, side: nat)
    ensures
        plain_path(output) != sized_path(output, side),
{
    let head = batch_dir(output) + seq!['/'] + last_component(output);
    assert(plain_path(output)[head.len() as int] == '.');
    assert(sized_path(output, side)[head.len() as int] == '_');
}

/// The files of a batch lie directly in its directory.
pub proof fn lemma_batch_paths_in_dir(output: Seq<char>, side: nat)
    ensures
        directly_in(plain_path(output), batch_dir(output)),
        directly_in(sized_path(output, side), batch_dir(output)),
{
    let dir = batch_dir(output);
    let base = last_component(output);
    lemma_last_component(output);
    lemma_decimal_has_no_separator(side);
    let plain = plain_path(output);
    let sized = sized_path(output, side);
    assert(plain.take(dir.len() as int) =~= dir);
    assert(sized.take(dir.len() as int) =~= dir);
    let plain_name = plain.skip(dir.len() as int + 1);
    let sized_name = sized.skip(dir.len() as int + 1);
    assert(plain_name =~= base + icon_suffix());
    assert(sized_name =~= base + seq!['_'] + decimal(side) + icon_suffix());
    assert forall|i: int| 0 <= i < plain_name.len() implies plain_name[i] != '/' by {
        if i < base.len() {
            assert(base.contains(base[i]));
        }
    }
    assert forall|i: int| 0 <= i < sized_name.len() implies sized_name[i] != '/' by {
        if i < base.len() {
            assert(base.contains(base[i]));
        } else if i > base.len() && i < base.len() + 1 + decimal(side).len() {
            assert(sized_name[i] == decimal(side)[i - base.len() - 1]);
        }
    }
}

/// A run for all sizes has eight jobs. They write eight different files,
/// all directly in the batch directory, and the first of them carries the
/// plain name and the requested size.
pub proof fn lemma_batch_files(output: Seq<char>, side: nat, force: bool)
    ensures
        batch_jobs(output, side, force).len() == 8,
        batch_jobs(output, side, force)[0] == (JobView { path: plain_path(output), side, force }),
        forall|i: int, j: int|
            0 <= i < j < 8 ==> (#[trigger] batch_jobs(output, side, force)[i]).path != (
            #[trigger] batch_jobs(output, side, force)[j]).path,
        forall|i: int|
            0 <= i < 8 ==> directly_in(
                (#[trigger] batch_jobs(output, side, force)[i]).path,
                batch_dir(output),
            ),
        forall|i: int|
            1 <= i < 8 ==> (#[trigger] batch_jobs(output, side, force)[i]).side
                == canonical_sides()[i - 1],
{
    let jobs = batch_jobs(output, side, force);
    let sides = canonical_sides();
    assert forall|i: int, j: int| 0 <= i < j < 8 implies (#[trigger] jobs[i]).path != (
    #[trigger] jobs[j]).path by {
        assert(jobs[j].path == sized_path(output, sides[j - 1]));
        if i == 0 {
            lemma_plain_path_differs(output, sides[j - 1]);
        } else {
            assert(jobs[i].path == sized_path(output, sides[i - 1]));
            assert(sides[i - 1] != sides[j - 1]);
            lemma_sized_paths_differ(output, sides[i - 1], sides[j - 1]);
        }
    }
    assert forall|i: int| 0 <= i < 8 implies directly_in(
        (#[trigger] jobs[i]).path,
        batch_dir(output),
    ) by {
        if i == 0 {
            lemma_batch_paths_in_dir(output, side);
        } else {
            lemma_batch_paths_in_dir(output, sides[i - 1]);
        }
    }
}

/// Plans a run for the base name `output`.
///
/// Without `all` the run writes `<output>.ico` at `size`. With `all` it
/// fills the directory `<output>_ico` with eight files named after the last
/// component of `output`: the plain `<name>.ico` at `size`, and
/// `<name>_<side>.ico` for each canonical side.
pub fn plan(output: &str, size: IconSize, all: bool, force: bool) -> (plan: Plan)
    ensures
        !all ==> (plan matches Plan::Single(job) && job@ == single_job(output@, size@, force)),
        all ==> (plan matches Plan::Batch { dir, jobs } && dir@ == batch_dir(output@) && jobs_are(
            jobs@,
            batch_jobs(output@, size@, force),
        )),
{
    proof {
        reveal_strlit(".ico");
        reveal_strlit("_ico");
        reveal_strlit("/");
        reveal_strlit("_");
        assert(".ico"@ =~= icon_suffix());
        assert("_ico"@ =~= dir_suffix());
        assert("/"@ =~= seq!['/']);
        assert("_"@ =~= seq!['_']);
    }
    if !all {
        let path = String::from_str(output).concat(".ico");
        return Plan::Single(EncodeJob { path, size, force });
    }
    let dir = String::from_str(output).concat("_ico");
    let stem = dir.clone().concat("/").concat(base_name(output));
    let mut jobs: Vec<EncodeJob> = Vec::with_capacity(BATCH_JOBS);
    jobs.push(EncodeJob { path: stem.clone().concat(".ico"), size, force });
    let ghost expected = batch_jobs(output@, size@, force);
    let mut index: usize = 0;
    while index < CANONICAL_COUNT
        invariant
            index <= CANONICAL_COUNT,
            stem@ == batch_dir(output@) + seq!['/'] + last_component(output@),
            ".ico"@ == icon_suffix(),
            "_"@ == seq!['_'],
            expected == batch_jobs(output@, size@, force),
            jobs@.len() == index + 1,
            forall|i: int| 0 <= i < jobs@.len() ==> (#[trigger] jobs@[i])@ == expected[i],
        decreases CANONICAL_COUNT - index,
    {
        let canonical = IconSize::canonical(index);
        let path = stem.clone().concat("_").concat(decimal_text(canonical.get()).as_str()).concat(
            ".ico",
        );
        jobs.push(EncodeJob { path, size: canonical, force });
        index = index + 1;
    }
    Plan::Batch { dir, jobs }
}

/// Whether a run succeeded as a whole: every job wrote its file. A job that
/// was skipped or failed makes the run fail.
pub fn batch_succeeded(outcomes: &[EncodeOutcome]) -> (ok: bool)
    ensures
        ok == all_saved(outcomes@),
{
    let mut ok = true;
    let mut index: usize = 0;
    while index < outcomes.len()
        invariant
            index <= outcomes@.len(),
            ok == all_saved(outcomes@.take(index as int)),
        decreases outcomes@.len() - index,
    {
        let saved = outcomes[index].is_saved();
        proof {
            let before = outcomes@.take(index as int);
            let after = outcomes@.take(index + 1);
            assert(after[index as int] == outcomes@[index as int]);
            assert forall|i: int| 0 <= i < before.len() implies before[i] == after[i] by {}
            if ok && saved {
                assert forall|i: int| 0 <= i < after.len() implies (#[trigger] after[i]) is Saved by {
                    if i < index {
                        assert(before[i] is Saved);
                    }
                }
            } else if !ok {
                let k = choose|k: int| 0 <= k < before.len() && !(#[trigger] before[k] is Saved);
                assert(!(after[k] is Saved));
            }
        }
        ok = saved && ok;
        index = index + 1;
    }
    assert(outcomes@.take(index as int) =~= outcomes@);
    ok
}

} // verus!
