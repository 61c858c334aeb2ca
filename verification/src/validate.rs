//! The validator: checks that every template's source exists and that
//! every project reference names a known template, and resolves each
//! template's source path, destination name and conflict behavior once,
//! before any instantiation.
//!
//! The validator itself never touches the filesystem: the caller reports,
//! per template, whether the source exists and what it canonicalizes to.

use vstd::prelude::*;

use crate::catalog::Behavior;
use crate::catalog::Config;
use crate::catalog::Project;
use crate::catalog::Settings;
use crate::catalog::Template;
use crate::catalog::ValidProject;
use crate::catalog::ValidTemplate;
use crate::lookup::find_template_exact;
use crate::lookup::template_known;
use crate::paths::basename;
use crate::paths::basename_of;
use crate::paths::join_of;
use crate::paths::join_path;

verus! {

/// Why a catalog was rejected.
#[derive(Debug)]
pub enum ValidationError {
    /// The `call_name`s of every template whose source path does not
    /// exist, in catalog order — all of them, not only the first.
    MissingTemplatePaths(Vec<String>),
    /// A project (first field) references a template `call_name` (second
    /// field) that no template carries.
    UnknownTemplateReference(String, String),
}

/// What the filesystem said about one template's source, reported by the
/// caller: whether `root/path` exists, and the canonical form of the
/// source path where canonicalization succeeded. Canonicalization is a
/// best-effort convenience; `None` falls back to the joined path.
#[derive(Debug)]
pub struct SourceInfo {
    /// Whether the template's source path exists under the root.
    pub exists: bool,
    /// The canonicalized source path, when canonicalization succeeded.
    pub canonical: Option<String>,
}

/// The three-level fallback chain for conflict behavior: the template's
/// own setting, else the settings default, else `Fail`.
pub open spec fn spec_resolve_behavior(
    template_behavior: Option<Behavior>,
    settings_default: Option<Behavior>,
) -> Behavior {
    match template_behavior {
        Some(b) => b,
        None => match settings_default {
            Some(b) => b,
            None => Behavior::Fail,
        },
    }
}

/// Resolves a template's conflict behavior: its own setting wins, then
/// the settings default, then `Fail`.
pub fn resolve_behavior(
    template_behavior: Option<Behavior>,
    settings_default: Option<Behavior>,
) -> (r: Behavior)
    ensures
        r == spec_resolve_behavior(template_behavior, settings_default),
        template_behavior is Some ==> r == template_behavior->Some_0,
        template_behavior is None && settings_default is Some ==> r == settings_default->Some_0,
        template_behavior is None && settings_default is None ==> r == Behavior::Fail,
{
    match template_behavior {
        Some(b) => b,
        None => match settings_default {
            Some(b) => b,
            None => Behavior::Fail,
        },
    }
}

/// The resolved source location of a template: what it canonicalizes to
/// when canonicalization succeeded, else the root-joined path.
pub open spec fn source_path_of(t: Template, info: SourceInfo, root: Seq<char>) -> Seq<char> {
    match info.canonical {
        Some(c) => c@,
        None => join_of(root, t.path@),
    }
}

/// The resolved destination file name of a template: its `rename` when
/// given, else the base name of the resolved source path.
pub open spec fn rename_of(t: Template, info: SourceInfo, root: Seq<char>) -> Seq<char> {
    match t.rename {
        Some(n) => n@,
        None => basename_of(source_path_of(t, info, root)),
    }
}

/// Whether `v` is exactly the resolution of template `t` under the given
/// source report, settings and root.
pub open spec fn resolves_to(
    v: ValidTemplate,
    t: Template,
    info: SourceInfo,
    settings: Settings,
    root: Seq<char>,
) -> bool {
    &&& v.path@ == source_path_of(t, info, root)
    &&& v.ttype == t.ttype
    &&& v.call_name@ == t.call_name@
    &&& v.rename@ == rename_of(t, info, root)
    &&& v.behavior == spec_resolve_behavior(t.behavior, settings.default_behavior)
}

/// The `call_name`s of the templates whose sources are missing, in
/// catalog order.
pub open spec fn missing_names(templates: Seq<Template>, sources: Seq<SourceInfo>) -> Seq<
    Seq<char>,
>
    decreases templates.len(),
{
    if templates.len() == 0 || sources.len() == 0 {
        Seq::<Seq<char>>::empty()
    } else {
        missing_names(templates.drop_last(), sources.drop_last()) + (if sources.last().exists {
            Seq::<Seq<char>>::empty()
        } else {
            seq![templates.last().call_name@]
        })
    }
}

/// No name is missing exactly when every reported source exists.
proof fn lemma_missing_names_empty(templates: Seq<Template>, sources: Seq<SourceInfo>)
    requires
        templates.len() == sources.len(),
    ensures
        missing_names(templates, sources).len() == 0 <==> (forall|i: int|
            0 <= i < sources.len() ==> #[trigger] sources[i].exists),
    decreases templates.len(),
{
    if templates.len() > 0 {
        lemma_missing_names_empty(templates.drop_last(), sources.drop_last());
        assert(forall|i: int|
            0 <= i < sources.len() - 1 ==> #[trigger] sources[i] == sources.drop_last()[i]);
    }
}

/// Checks that every template's source exists and resolves each template:
/// source path canonicalized (best effort), destination name defaulted to
/// the source's base name, behavior resolved through the fallback chain.
/// When any source is missing, every missing template's `call_name` is
/// reported together, in catalog order, and nothing is resolved.
pub fn validate_template(
    root: &str,
    settings: &Settings,
    template_data: &Vec<Template>,
    sources: &Vec<SourceInfo>,
) -> (r: Result<Vec<ValidTemplate>, ValidationError>)
    requires
        sources@.len() == template_data@.len(),
    ensures
        r is Ok <==> (forall|i: int| 0 <= i < sources@.len() ==> #[trigger] sources@[i].exists),
        r is Ok ==> r->Ok_0@.len() == template_data@.len() && (forall|i: int|
            0 <= i < template_data@.len() ==> resolves_to(
                #[trigger] r->Ok_0@[i],
                template_data@[i],
                sources@[i],
                *settings,
                root@,
            )),
        r is Err ==> (r->Err_0 matches ValidationError::MissingTemplatePaths(names)
            && names.deep_view() == missing_names(template_data@, sources@)),
{
    let n = template_data.len();
    let mut missing: Vec<String> = Vec::new();
    let mut i: usize = 0;
    while i < n
        invariant
            i <= n,
            n == template_data@.len(),
            sources@.len() == n,
            missing.deep_view() == missing_names(
                template_data@.take(i as int),
                sources@.take(i as int),
            ),
        decreases n - i,
    {
        if !sources[i].exists {
            missing.push(template_data[i].call_name.clone());
        }
        i = i + 1;
        proof {
            let tt = template_data@.take(i as int);
            let ss = sources@.take(i as int);
            assert(tt.drop_last() =~= template_data@.take(i - 1));
            assert(ss.drop_last() =~= sources@.take(i - 1));
            assert(missing.deep_view() =~= missing_names(tt, ss));
        }
    }
    proof {
        assert(template_data@.take(n as int) =~= template_data@);
        assert(sources@.take(n as int) =~= sources@);
        lemma_missing_names_empty(template_data@, sources@);
    }
    if missing.len() > 0 {
        assert(missing.deep_view().len() == missing@.len());
        return Err(ValidationError::MissingTemplatePaths(missing));
    }
    assert(missing.deep_view().len() == missing@.len());
    let mut out: Vec<ValidTemplate> = Vec::new();
    let mut j: usize = 0;
    while j < n
        invariant
            j <= n,
            n == template_data@.len(),
            sources@.len() == n,
            out@.len() == j,
            forall|k: int|
                0 <= k < j ==> resolves_to(
                    #[trigger] out@[k],
                    template_data@[k],
                    sources@[k],
                    *settings,
                    root@,
                ),
        decreases n - j,
    {
        let t = &template_data[j];
        let path: String = match &sources[j].canonical {
            Some(c) => c.clone(),
            None => join_path(root, t.path.as_str()),
        };
        let rename: String = match &t.rename {
            Some(nm) => nm.clone(),
            None => basename(path.as_str()),
        };
        let behavior = resolve_behavior(t.behavior, settings.default_behavior);
        out.push(
            ValidTemplate {
                path,
                ttype: t.ttype,
                call_name: t.call_name.clone(),
                rename,
                behavior,
            },
        );
        j = j + 1;
    }
    Ok(out)
}

/// Whether every template reference of project `p` names some template.
pub open spec fn project_resolves(templates: Seq<ValidTemplate>, p: Project) -> bool {
    forall|j: int|
        0 <= j < p.templates@.len() ==> template_known(templates, #[trigger] p.templates@[j]@)
}

/// Whether `v` is exactly the resolution of project `p`: same name, and
/// one position per reference, each the first template with that exact
/// `call_name`.
pub open spec fn resolved_project_matches(
    v: ValidProject,
    p: Project,
    templates: Seq<ValidTemplate>,
) -> bool {
    &&& v.call_name@ == p.call_name@
    &&& v.templates@.len() == p.templates@.len()
    &&& forall|j: int|
        0 <= j < v.templates@.len() ==> {
            let k = #[trigger] v.templates@[j] as int;
            &&& 0 <= k < templates.len()
            &&& templates[k].call_name@ == p.templates@[j]@
            &&& forall|m: int| 0 <= m < k ==> templates[m].call_name@ != p.templates@[j]@
        }
}

/// Whether reference `j` of project `i` is the first unresolvable
/// reference, in catalog order: every earlier project resolves fully,
/// every earlier reference of project `i` resolves, and this one does not.
pub open spec fn first_unknown_at(
    templates: Seq<ValidTemplate>,
    projects: Seq<Project>,
    i: int,
    j: int,
) -> bool {
    &&& 0 <= i < projects.len()
    &&& 0 <= j < projects[i].templates@.len()
    &&& !template_known(templates, projects[i].templates@[j]@)
    &&& forall|i2: int| 0 <= i2 < i ==> project_resolves(templates, #[trigger] projects[i2])
    &&& forall|j2: int|
        0 <= j2 < j ==> template_known(templates, #[trigger] projects[i].templates@[j2]@)
}

/// Checks every project against the validated template list: each
/// reference must match some template's `call_name` exactly. Succeeds
/// with every project resolved, in order, or fails on the first
/// unresolvable reference, naming the project and the reference.
pub fn validate_project(
    template_data: &Vec<ValidTemplate>,
    project_data: &Vec<Project>,
) -> (r: Result<Vec<ValidProject>, ValidationError>)
    ensures
        r is Ok <==> (forall|i: int|
            0 <= i < project_data@.len() ==> project_resolves(
                template_data@,
                #[trigger] project_data@[i],
            )),
        r is Ok ==> r->Ok_0@.len() == project_data@.len() && (forall|i: int|
            0 <= i < project_data@.len() ==> resolved_project_matches(
                #[trigger] r->Ok_0@[i],
                project_data@[i],
                template_data@,
            )),
        r is Err ==> (r->Err_0 matches ValidationError::UnknownTemplateReference(pname, tname)
            && exists|i: int, j: int|
            #[trigger] first_unknown_at(template_data@, project_data@, i, j) && pname@
                == project_data@[i].call_name@ && tname@ == project_data@[i].templates@[j]@),
{
    let mut out: Vec<ValidProject> = Vec::new();
    let mut i: usize = 0;
    while i < project_data.len()
        invariant
            i <= project_data@.len(),
            out@.len() == i,
            forall|i2: int|
                0 <= i2 < i ==> resolved_project_matches(
                    #[trigger] out@[i2],
                    project_data@[i2],
                    template_data@,
                ),
            forall|i2: int|
                0 <= i2 < i ==> project_resolves(template_data@, #[trigger] project_data@[i2]),
        decreases project_data@.len() - i,
    {
        let p = &project_data[i];
        let mut positions: Vec<usize> = Vec::new();
        let mut j: usize = 0;
        while j < p.templates.len()
            invariant
                j <= p.templates@.len(),
                positions@.len() == j,
                forall|j2: int|
                    0 <= j2 < j ==> {
                        let k = #[trigger] positions@[j2] as int;
                        &&& 0 <= k < template_data@.len()
                        &&& template_data@[k].call_name@ == p.templates@[j2]@
                        &&& forall|m: int|
                            0 <= m < k ==> template_data@[m].call_name@ != p.templates@[j2]@
                    },
                forall|j2: int|
                    0 <= j2 < j ==> template_known(template_data@, #[trigger] p.templates@[j2]@),
                0 <= i < project_data@.len(),
                p == &project_data@[i as int],
                forall|i2: int|
                    0 <= i2 < i ==> project_resolves(template_data@, #[trigger] project_data@[i2]),
            decreases p.templates@.len() - j,
        {
            match find_template_exact(template_data, &p.templates[j]) {
                Some(k) => {
                    positions.push(k);
                },
                None => {
                    proof {
                        assert(first_unknown_at(
                            template_data@,
                            project_data@,
                            i as int,
                            j as int,
                        ));
                        assert(!project_resolves(template_data@, project_data@[i as int]));
                    }
                    return Err(
                        ValidationError::UnknownTemplateReference(
                            p.call_name.clone(),
                            p.templates[j].clone(),
                        ),
                    );
                },
            }
            j = j + 1;
        }
        out.push(ValidProject { templates: positions, call_name: p.call_name.clone() });
        i = i + 1;
    }
    Ok(out)
}

/// Whether some raw template carries exactly this `call_name`.
pub open spec fn name_declared(templates: Seq<Template>, name: Seq<char>) -> bool {
    exists|k: int| 0 <= k < templates.len() && #[trigger] templates[k].call_name@ == name
}

/// Whether every template reference of raw project `p` names some raw
/// template.
pub open spec fn project_refs_declared(templates: Seq<Template>, p: Project) -> bool {
    forall|j: int|
        0 <= j < p.templates@.len() ==> name_declared(templates, #[trigger] p.templates@[j]@)
}

/// `first_unknown_at`, stated over the raw catalog: reference `j` of
/// project `i` is the first that names no declared template.
pub open spec fn first_undeclared_at(
    templates: Seq<Template>,
    projects: Seq<Project>,
    i: int,
    j: int,
) -> bool {
    &&& 0 <= i < projects.len()
    &&& 0 <= j < projects[i].templates@.len()
    &&& !name_declared(templates, projects[i].templates@[j]@)
    &&& forall|i2: int| 0 <= i2 < i ==> project_refs_declared(templates, #[trigger] projects[i2])
    &&& forall|j2: int|
        0 <= j2 < j ==> name_declared(templates, #[trigger] projects[i].templates@[j2]@)
}

/// Resolution keeps every `call_name`, so a name matches some resolved
/// template exactly when it matches some raw template.
proof fn lemma_known_iff_declared(
    vts: Seq<ValidTemplate>,
    raw: Seq<Template>,
    sources: Seq<SourceInfo>,
    settings: Settings,
    root: Seq<char>,
)
    requires
        vts.len() == raw.len(),
        sources.len() == raw.len(),
        forall|i: int|
            0 <= i < raw.len() ==> resolves_to(#[trigger] vts[i], raw[i], sources[i], settings, root),
    ensures
        forall|name: Seq<char>| #[trigger] template_known(vts, name) ==> name_declared(raw, name),
        forall|name: Seq<char>| #[trigger] name_declared(raw, name) ==> template_known(vts, name),
{
    assert forall|name: Seq<char>| #[trigger] template_known(vts, name) implies name_declared(
        raw,
        name,
    ) by {
        let k = choose|k: int| 0 <= k < vts.len() && #[trigger] vts[k].call_name@ == name;
        assert(resolves_to(vts[k], raw[k], sources[k], settings, root));
        assert(raw[k].call_name@ == name);
    };
    assert forall|name: Seq<char>| #[trigger] name_declared(raw, name) implies template_known(
        vts,
        name,
    ) by {
        let k = choose|k: int| 0 <= k < raw.len() && #[trigger] raw[k].call_name@ == name;
        assert(resolves_to(vts[k], raw[k], sources[k], settings, root));
        assert(vts[k].call_name@ == name);
    };
}

/// Validates a whole catalog: every template's source must exist, and
/// every project reference must name a declared template. Succeeds with
/// the fully resolved templates and projects; fails with the aggregated
/// missing-source names, or with the first unresolvable project
/// reference once all sources exist. Nothing is ever partially resolved.
pub fn validate_catalog(root: &str, config: &Config, sources: &Vec<SourceInfo>) -> (r: Result<
    (Vec<ValidTemplate>, Option<Vec<ValidProject>>),
    ValidationError,
>)
    requires
        sources@.len() == config.templates@.len(),
    ensures
        r is Ok <==> (forall|i: int| 0 <= i < sources@.len() ==> #[trigger] sources@[i].exists) && (
        config.projects matches Some(ps) ==> forall|i: int|
            0 <= i < ps@.len() ==> project_refs_declared(config.templates@, #[trigger] ps@[i])),
        r is Ok ==> ({
            let vts = r->Ok_0.0;
            let vps = r->Ok_0.1;
            &&& vts@.len() == config.templates@.len()
            &&& (forall|i: int|
                0 <= i < config.templates@.len() ==> resolves_to(
                    #[trigger] vts@[i],
                    config.templates@[i],
                    sources@[i],
                    config.settings,
                    root@,
                ))
            &&& (vps is Some <==> config.projects is Some)
            &&& (config.projects matches Some(ps) ==> (vps matches Some(vv) && vv@.len()
                == ps@.len() && (forall|i: int|
                0 <= i < ps@.len() ==> resolved_project_matches(
                    #[trigger] vv@[i],
                    ps@[i],
                    vts@,
                ))))
        }),
        r is Err && missing_names(config.templates@, sources@).len() > 0 ==> (r->Err_0 matches ValidationError::MissingTemplatePaths(
            names,
        ) && names.deep_view() == missing_names(config.templates@, sources@)),
        r is Err && missing_names(config.templates@, sources@).len() == 0 ==> (config.projects matches Some(
            ps,
        ) && (r->Err_0 matches ValidationError::UnknownTemplateReference(pname, tname) && exists|
            i: int,
            j: int,
        |
            #[trigger] first_undeclared_at(config.templates@, ps@, i, j) && pname@
                == ps@[i].call_name@ && tname@ == ps@[i].templates@[j]@)),
{
    proof {
        lemma_missing_names_empty(config.templates@, sources@);
    }
    let vts = match validate_template(root, &config.settings, &config.templates, sources) {
        Ok(v) => v,
        Err(e) => {
            return Err(e);
        },
    };
    let vps = match &config.projects {
        Some(ps) => {
            match validate_project(&vts, ps) {
                Ok(v) => {
                    proof {
                        lemma_known_iff_declared(
                            vts@,
                            config.templates@,
                            sources@,
                            config.settings,
                            root@,
                        );
                        assert forall|i: int| 0 <= i < ps@.len() implies project_refs_declared(
                            config.templates@,
                            #[trigger] ps@[i],
                        ) by {
                            assert(project_resolves(vts@, ps@[i]));
                            assert forall|j: int|
                                0 <= j < ps@[i].templates@.len() implies name_declared(
                                config.templates@,
                                #[trigger] ps@[i].templates@[j]@,
                            ) by {
                                assert(template_known(vts@, ps@[i].templates@[j]@));
                            };
                        };
                    }
                    Some(v)
                },
                Err(e) => {
                    proof {
                        lemma_known_iff_declared(
                            vts@,
                            config.templates@,
                            sources@,
                            config.settings,
                            root@,
                        );
                        let (i, j) = choose|i: int, j: int|
                            #[trigger] first_unknown_at(vts@, ps@, i, j) && (
                            e matches ValidationError::UnknownTemplateReference(pname, tname)
                                && pname@ == ps@[i].call_name@ && tname@ == ps@[i].templates@[j]@);
                        assert(!name_declared(config.templates@, ps@[i].templates@[j]@));
                        assert forall|i2: int| 0 <= i2 < i implies project_refs_declared(
                            config.templates@,
                            #[trigger] ps@[i2],
                        ) by {
                            assert(project_resolves(vts@, ps@[i2]));
                            assert forall|j2: int|
                                0 <= j2 < ps@[i2].templates@.len() implies name_declared(
                                config.templates@,
                                #[trigger] ps@[i2].templates@[j2]@,
                            ) by {
                                assert(template_known(vts@, ps@[i2].templates@[j2]@));
                            };
                        };
                        assert forall|j2: int| 0 <= j2 < j implies name_declared(
                            config.templates@,
                            #[trigger] ps@[i].templates@[j2]@,
                        ) by {
                            assert(template_known(vts@, ps@[i].templates@[j2]@));
                        };
                        assert(first_undeclared_at(config.templates@, ps@, i, j));
                        assert(!project_refs_declared(config.templates@, ps@[i]));
                    }
                    return Err(e);
                },
            }
        },
        None => None,
    };
    Ok((vts, vps))
}

} // verus!
