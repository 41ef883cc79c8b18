//! The batch driver: the run configuration, the per-entry plan (which
//! directory entries are transformed, and under what output name), and the
//! per-file disposition including the deletion decision.

use vstd::prelude::*;
use vstd::string::StringExecFns;
use crate::chars::{is_lower_seq, is_lowercase_str};
use crate::classify::{accepted_path, img_validation};
use crate::paths::{get_file_name, stem_of};
use crate::transform::{Resized, TransformError, transform_image, transform_post};

verus! {

/// The configuration of one run, immutable once built: reduction percentage
/// within [1,100], output extension as a lowercase token, and the two flags.
pub struct Config {
    pub reduce: u8,
    pub extension: String,
    pub process_all: bool,
    pub delete: bool,
}

impl Config {
    /// A valid configuration: the reduction within [1,100] and the output
    /// extension free of uppercase ASCII letters.
    pub open spec fn wf(&self) -> bool {
        &&& 1 <= self.reduce <= 100
        &&& is_lower_seq(self.extension@)
    }

    /// Build a configuration, rejecting a reduction outside [1,100] and an
    /// extension that is not a lowercase token.
    pub fn new(reduce: u8, extension: String, process_all: bool, delete: bool) -> (r: Option<
        Config,
    >)
        ensures
            r is Some <==> (1 <= reduce <= 100 && is_lower_seq(extension@)),
            match r {
                Some(c) => c.wf() && c.reduce == reduce && c.extension@ == extension@
                    && c.process_all == process_all && c.delete == delete,
                None => true,
            },
    {
        if reduce < 1 || reduce > 100 {
            return None;
        }
        if !is_lowercase_str(extension.as_str()) {
            return None;
        }
        Some(Config { reduce, extension, process_all, delete })
    }
}

/// One planned transformation: the directory entry to read, the name the
/// output is written under, and whether the two collide (the output then
/// overwrites the input in place, and delete-after is a no-op).
pub struct Job {
    pub input_name: String,
    pub output_name: String,
    pub overwrites_input: bool,
}

/// The stem of a name, or the placeholder when no stem can be derived.
pub open spec fn stem_or_default(name: Seq<char>) -> Seq<char> {
    match stem_of(name) {
        Some(s) => s,
        None => "output"@,
    }
}

/// The output name for an input name: the input's stem, a dot, and the
/// configured extension.
pub open spec fn output_name_spec(name: Seq<char>, ext: Seq<char>) -> Seq<char> {
    stem_or_default(name) + "."@ + ext
}

/// `j` is the job the plan assigns to the entry `name` under output
/// extension `ext`.
pub open spec fn job_for(name: Seq<char>, ext: Seq<char>, j: Job) -> bool {
    &&& j.input_name@ == name
    &&& j.output_name@ == output_name_spec(name, ext)
    &&& j.overwrites_input == (name == output_name_spec(name, ext))
}

/// Plan one directory entry: a job exactly when the classifier accepts the
/// name; the output name is the entry's stem joined to the configured
/// extension.
pub fn plan_entry(name: &String, config: &Config) -> (r: Option<Job>)
    requires
        config.wf(),
    ensures
        r is Some <==> accepted_path(name@),
        match r {
            Some(j) => job_for(name@, config.extension@, j),
            None => true,
        },
{
    if !img_validation(name) {
        return None;
    }
    let stem: String = match get_file_name(name.as_str()) {
        Some(s) => s,
        None => String::from_str("output"),
    };
    let output_name = stem.concat(".").concat(config.extension.as_str());
    proof {
        assert(output_name@ =~= output_name_spec(name@, config.extension@));
    }
    let overwrites_input = (*name).eq(&output_name);
    Some(Job { input_name: name.clone(), output_name, overwrites_input })
}

/// The names among `names`, in order, that the classifier accepts.
pub open spec fn accepted_names(names: Seq<String>) -> Seq<Seq<char>> {
    names.map_values(|n: String| n@).filter(|s: Seq<char>| accepted_path(s))
}

/// Plan a whole run over the scanned directory entries. Without the
/// process-all flag nothing is planned; with it, the planned jobs are
/// exactly the classifier-accepted entries, in scan order.
pub fn plan_batch(names: &Vec<String>, config: &Config) -> (r: Vec<Job>)
    requires
        config.wf(),
    ensures
        !config.process_all ==> r@.len() == 0,
        config.process_all ==> r@.map_values(|j: Job| j.input_name@) == accepted_names(names@),
        forall|i: int|
            0 <= i < r@.len() ==> accepted_path(#[trigger] r@[i].input_name@) && job_for(
                r@[i].input_name@,
                config.extension@,
                r@[i],
            ),
{
    let mut jobs: Vec<Job> = Vec::new();
    if !config.process_all {
        return jobs;
    }
    let n = names.len();
    let mut k: usize = 0;
    while k < n
        invariant
            config.wf(),
            n == names@.len(),
            0 <= k <= n,
            jobs@.map_values(|j: Job| j.input_name@) == accepted_names(names@.take(k as int)),
            forall|i: int|
                0 <= i < jobs@.len() ==> accepted_path(#[trigger] jobs@[i].input_name@) && job_for(
                    jobs@[i].input_name@,
                    config.extension@,
                    jobs@[i],
                ),
        decreases n - k,
    {
        let ghost jobs0 = jobs@;
        let planned = plan_entry(&names[k], config);
        match planned {
            Some(job) => {
                jobs.push(job);
            },
            None => {},
        }
        proof {
            lemma_accepted_names_step(names@, k as int);
            let f = |j: Job| j.input_name@;
            if accepted_path(names@[k as int]@) {
                assert(jobs@.map_values(f) =~= jobs0.map_values(f).push(names@[k as int]@));
            } else {
                assert(jobs@.map_values(f) =~= jobs0.map_values(f));
            }
        }
        k = k + 1;
    }
    proof {
        assert(names@.take(n as int) =~= names@);
    }
    jobs
}

/// Extending the scanned prefix by one entry extends the accepted names by
/// that entry exactly when the classifier accepts it.
proof fn lemma_accepted_names_step(names: Seq<String>, k: int)
    requires
        0 <= k < names.len(),
    ensures
        accepted_names(names.take(k + 1)) == if accepted_path(names[k]@) {
            accepted_names(names.take(k)).push(names[k]@)
        } else {
            accepted_names(names.take(k))
        },
{
    reveal(Seq::filter);
    let f = |n2: String| n2@;
    let pred = |s: Seq<char>| accepted_path(s);
    let m0 = names.take(k).map_values(f);
    let m1 = names.take(k + 1).map_values(f);
    assert(m1.len() == k + 1);
    assert(m1.drop_last() =~= m0);
    assert(m1.last() == names[k]@);
}

/// The outcome of one planned entry: the transformation result, and whether
/// the original is to be removed.
pub struct EntryOutcome {
    pub result: Result<Resized, TransformError>,
    pub delete_original: bool,
}

/// Transform the bytes of one planned entry and settle its disposition: the
/// original is marked for deletion exactly when deletion was asked for, the
/// transformation succeeded, and the output does not already overwrite the
/// input in place (deletion is then a no-op and must not remove the output).
pub fn process_entry(job: &Job, input: &[u8], config: &Config) -> (r: EntryOutcome)
    requires
        config.wf(),
    ensures
        transform_post(config.extension@, r.result),
        r.delete_original <==> (config.delete && r.result is Ok && !job.overwrites_input),
{
    let result = transform_image(input, config.reduce, config.extension.as_str());
    let delete_original = config.delete && result.is_ok() && !job.overwrites_input;
    EntryOutcome { result, delete_original }
}

} // verus!
