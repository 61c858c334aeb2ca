//! The instantiation engine's decisions: given a validated template and
//! whether its destination already exists, decide which filesystem action
//! to take (copy, append, overwrite, run a script) or whether to abort,
//! and say exactly what the destination's content must be afterwards.
//!
//! The engine never touches the filesystem itself: callers check for the
//! destination, read file contents, and carry the decided actions out.

use vstd::prelude::*;

use crate::catalog::Behavior;
use crate::catalog::TemplateType;
use crate::catalog::ValidProject;
use crate::catalog::ValidTemplate;
use crate::paths::join_of;
use crate::paths::join_path;

verus! {

/// Why a template's instantiation was aborted.
#[derive(Clone, Copy, Debug, PartialEq, Eq, Structural)]
pub enum InstantiationError {
    /// The destination file already exists and the template's resolved
    /// behavior is `Fail`.
    DestinationExists,
}

/// One filesystem action the engine has decided on. The caller performs
/// it; the engine only computes it.
#[derive(Debug)]
pub enum Action {
    /// Copy `source` to `destination`, which does not exist yet.
    CopyFile { source: String, destination: String },
    /// Write `source`'s bytes after the existing content of `destination`.
    AppendFile { source: String, destination: String },
    /// Replace the existing `destination` with a copy of `source`.
    OverwriteFile { source: String, destination: String },
    /// Run `source` through the configured interpreter.
    RunScript { source: String },
}

/// Whether instantiating `t` goes ahead when the destination's existence
/// is as given: only a file template whose destination exists under the
/// `Fail` policy is aborted.
pub open spec fn plan_succeeds(t: ValidTemplate, dest_exists: bool) -> bool {
    t.ttype == TemplateType::Script || !dest_exists || t.behavior != Behavior::Fail
}

/// The action that instantiating `t` into `target_dir` must take, given
/// whether the destination already exists: a script is run from its
/// source; a file is copied when the destination is absent, and otherwise
/// appended or overwritten according to the resolved behavior.
pub open spec fn action_matches(
    a: Action,
    t: ValidTemplate,
    target_dir: Seq<char>,
    dest_exists: bool,
) -> bool {
    if t.ttype == TemplateType::Script {
        a matches Action::RunScript { source } && source@ == t.path@
    } else if !dest_exists {
        &&& a matches Action::CopyFile { source, destination }
        &&& source@ == t.path@
        &&& destination@ == join_of(target_dir, t.rename@)
    } else {
        match t.behavior {
            Behavior::Fail => false,
            Behavior::Append => {
                &&& a matches Action::AppendFile { source, destination }
                &&& source@ == t.path@
                &&& destination@ == join_of(target_dir, t.rename@)
            },
            Behavior::Overwrite => {
                &&& a matches Action::OverwriteFile { source, destination }
                &&& source@ == t.path@
                &&& destination@ == join_of(target_dir, t.rename@)
            },
        }
    }
}

/// Decides what instantiating one validated template into `target_dir`
/// does. `dest_exists` says whether the destination file
/// `target_dir/rename` is already present. Scripts always run; a file
/// template copies when the destination is absent, and otherwise follows
/// its resolved behavior: `Fail` aborts with `DestinationExists`, the
/// other policies append or overwrite.
pub fn plan_template(t: &ValidTemplate, target_dir: &str, dest_exists: bool) -> (r: Result<
    Action,
    InstantiationError,
>)
    ensures
        r is Ok <==> plan_succeeds(*t, dest_exists),
        r matches Ok(a) ==> action_matches(a, *t, target_dir@, dest_exists),
        r matches Err(e) ==> e == InstantiationError::DestinationExists,
{
    match t.ttype {
        TemplateType::Script => Ok(Action::RunScript { source: t.path.clone() }),
        TemplateType::Template => {
            if !dest_exists {
                Ok(
                    Action::CopyFile {
                        source: t.path.clone(),
                        destination: join_path(target_dir, t.rename.as_str()),
                    },
                )
            } else {
                match t.behavior {
                    Behavior::Fail => Err(InstantiationError::DestinationExists),
                    Behavior::Append => Ok(
                        Action::AppendFile {
                            source: t.path.clone(),
                            destination: join_path(target_dir, t.rename.as_str()),
                        },
                    ),
                    Behavior::Overwrite => Ok(
                        Action::OverwriteFile {
                            source: t.path.clone(),
                            destination: join_path(target_dir, t.rename.as_str()),
                        },
                    ),
                }
            }
        },
    }
}

/// Whether every template position of `p` points into `templates`; the
/// validator guarantees this of every project it resolves.
pub open spec fn project_positions_valid(p: ValidProject, templates: Seq<ValidTemplate>) -> bool {
    forall|j: int| 0 <= j < p.templates@.len() ==> (#[trigger] p.templates@[j]) < templates.len()
}

/// Law: a project the validator resolved always satisfies the engine's
/// precondition — every one of its template positions points into the
/// validated template list, so a lookup miss during instantiation is
/// impossible.
pub proof fn lemma_validated_project_positions_valid(
    v: ValidProject,
    p: crate::catalog::Project,
    templates: Seq<ValidTemplate>,
)
    requires
        crate::validate::resolved_project_matches(v, p, templates),
    ensures
        project_positions_valid(v, templates),
{
}

/// Decides every action of one project's instantiation, in the project's
/// declared order. `dest_exists[j]` says whether the `j`-th member
/// template's destination is already present. The first member whose
/// policy is `Fail` on an existing destination aborts the whole project:
/// no action is decided for it or for the members after it.
pub fn plan_project(
    templates: &Vec<ValidTemplate>,
    project: &ValidProject,
    target_dir: &str,
    dest_exists: &Vec<bool>,
) -> (r: Result<Vec<Action>, InstantiationError>)
    requires
        project_positions_valid(*project, templates@),
        dest_exists@.len() == project.templates@.len(),
    ensures
        r is Ok <==> (forall|j: int|
            0 <= j < project.templates@.len() ==> plan_succeeds(
                templates@[#[trigger] project.templates@[j] as int],
                dest_exists@[j],
            )),
        r is Ok ==> r->Ok_0@.len() == project.templates@.len() && (forall|j: int|
            0 <= j < project.templates@.len() ==> action_matches(
                #[trigger] r->Ok_0@[j],
                templates@[project.templates@[j] as int],
                target_dir@,
                dest_exists@[j],
            )),
        r is Err ==> r->Err_0 == InstantiationError::DestinationExists && (exists|j: int|
            0 <= j < project.templates@.len() && !plan_succeeds(
                templates@[#[trigger] project.templates@[j] as int],
                dest_exists@[j],
            ) && (forall|j2: int|
                0 <= j2 < j ==> plan_succeeds(
                    templates@[#[trigger] project.templates@[j2] as int],
                    dest_exists@[j2],
                ))),
{
    let mut plans: Vec<Action> = Vec::new();
    let mut j: usize = 0;
    while j < project.templates.len()
        invariant
            j <= project.templates@.len(),
            plans@.len() == j,
            project_positions_valid(*project, templates@),
            dest_exists@.len() == project.templates@.len(),
            forall|j2: int|
                0 <= j2 < j ==> plan_succeeds(
                    templates@[#[trigger] project.templates@[j2] as int],
                    dest_exists@[j2],
                ),
            forall|j2: int|
                0 <= j2 < j ==> action_matches(
                    #[trigger] plans@[j2],
                    templates@[project.templates@[j2] as int],
                    target_dir@,
                    dest_exists@[j2],
                ),
        decreases project.templates@.len() - j,
    {
        let idx = project.templates[j];
        match plan_template(&templates[idx], target_dir, dest_exists[j]) {
            Ok(a) => {
                plans.push(a);
            },
            Err(e) => {
                return Err(e);
            },
        }
        j = j + 1;
    }
    Ok(plans)
}

/// A copy of `src`'s bytes.
fn copy_bytes(src: &Vec<u8>) -> (r: Vec<u8>)
    ensures
        r@ == src@,
{
    let mut out: Vec<u8> = Vec::new();
    let mut i: usize = 0;
    while i < src.len()
        invariant
            i <= src.len(),
            out@ == src@.take(i as int),
        decreases src.len() - i,
    {
        out.push(src[i]);
        i = i + 1;
        assert(out@ =~= src@.take(i as int));
    }
    assert(out@ =~= src@);
    out
}

/// The bytes of `first` followed by the bytes of `second`.
fn concat_bytes(first: &Vec<u8>, second: &Vec<u8>) -> (r: Vec<u8>)
    ensures
        r@ == first@ + second@,
{
    let mut out = copy_bytes(first);
    let mut i: usize = 0;
    while i < second.len()
        invariant
            i <= second.len(),
            out@ == first@ + second@.take(i as int),
        decreases second.len() - i,
    {
        out.push(second[i]);
        i = i + 1;
        assert(out@ =~= first@ + second@.take(i as int));
    }
    assert(out@ =~= first@ + second@);
    out
}

/// The content the destination file must hold after instantiating a file
/// template, given the content it held before (`None` when it did not
/// exist) and the source file's content: an absent destination always
/// receives the source; an existing one is kept untouched under `Fail`,
/// extended by the source under `Append`, and replaced under `Overwrite`.
pub fn destination_after(existing: &Option<Vec<u8>>, source: &Vec<u8>, behavior: Behavior) -> (r:
    Result<Vec<u8>, InstantiationError>)
    ensures
        r is Ok <==> !(existing is Some && behavior == Behavior::Fail),
        existing is None ==> r->Ok_0@ == source@,
        existing is Some && behavior == Behavior::Fail ==> r->Err_0
            == InstantiationError::DestinationExists,
        existing is Some && behavior == Behavior::Append ==> r->Ok_0@ == existing->Some_0@
            + source@,
        existing is Some && behavior == Behavior::Overwrite ==> r->Ok_0@ == source@,
{
    match existing {
        None => Ok(copy_bytes(source)),
        Some(a) => match behavior {
            Behavior::Fail => Err(InstantiationError::DestinationExists),
            Behavior::Append => Ok(concat_bytes(a, source)),
            Behavior::Overwrite => Ok(copy_bytes(source)),
        },
    }
}

/// A directory's content as a map from file path to file bytes: the model
/// against which one file template's instantiation is stated. An absent
/// destination receives the source content whatever the behavior; an
/// existing one follows the behavior's policy.
pub open spec fn spec_instantiate_file(
    fs: Map<Seq<char>, Seq<u8>>,
    source: Seq<u8>,
    dest: Seq<char>,
    behavior: Behavior,
) -> Result<Map<Seq<char>, Seq<u8>>, InstantiationError> {
    if !fs.dom().contains(dest) {
        Ok(fs.insert(dest, source))
    } else {
        match behavior {
            Behavior::Fail => Err(InstantiationError::DestinationExists),
            Behavior::Append => Ok(fs.insert(dest, fs[dest] + source)),
            Behavior::Overwrite => Ok(fs.insert(dest, source)),
        }
    }
}

/// Law: instantiating a `Fail`-behavior template whose destination does
/// not exist yet succeeds and fills the destination with the source
/// content; instantiating it again, unchanged, fails with
/// `DestinationExists` and leaves the directory as it was.
pub proof fn lemma_fail_behavior_second_run_fails(
    fs: Map<Seq<char>, Seq<u8>>,
    source: Seq<u8>,
    dest: Seq<char>,
)
    requires
        !fs.dom().contains(dest),
    ensures
        ({
            let first = spec_instantiate_file(fs, source, dest, Behavior::Fail);
            match first {
                Ok(fs1) => fs1.dom().contains(dest) && fs1[dest] == source && (spec_instantiate_file(
                    fs1,
                    source,
                    dest,
                    Behavior::Fail,
                ) matches Err(e) && e == InstantiationError::DestinationExists),
                Err(_) => false,
            }
        }),
{
}

/// Law: two file templates of one project whose destinations are distinct
/// and not present beforehand both end up populated with their own source
/// content, and the resulting directory is the same in either execution
/// order.
pub proof fn lemma_distinct_destinations_commute(
    fs: Map<Seq<char>, Seq<u8>>,
    content_a: Seq<u8>,
    dest_a: Seq<char>,
    behavior_a: Behavior,
    content_b: Seq<u8>,
    dest_b: Seq<char>,
    behavior_b: Behavior,
)
    requires
        dest_a != dest_b,
        !fs.dom().contains(dest_a),
        !fs.dom().contains(dest_b),
    ensures
        ({
            let first_a = spec_instantiate_file(fs, content_a, dest_a, behavior_a);
            match first_a {
                Ok(fs_a) => spec_instantiate_file(fs_a, content_b, dest_b, behavior_b) matches Ok(
                    fs_ab,
                ) && fs_ab.dom().contains(dest_a) && fs_ab[dest_a] == content_a
                    && fs_ab.dom().contains(dest_b) && fs_ab[dest_b] == content_b,
                Err(_) => false,
            }
        }),
        ({
            let fs_ab = fs.insert(dest_a, content_a).insert(dest_b, content_b);
            let fs_ba = fs.insert(dest_b, content_b).insert(dest_a, content_a);
            fs_ab == fs_ba
        }),
{
    assert(fs.insert(dest_a, content_a).insert(dest_b, content_b) =~= fs.insert(
        dest_b,
        content_b,
    ).insert(dest_a, content_a));
}

} // verus!
