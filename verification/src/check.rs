//! Checks on an extracted project: dependencies that point outside it, and
//! the presence of a license file.

use crate::text::{has_prefix, lowercased, owned, starts_with, to_chars, to_lower};
use crate::{CheckResult, ErrorView, PorterError, ProjectConfig};
use vstd::prelude::*;
use vstd::string::*;

verus! {

/// A name in lowercase is that of a license file when it begins with
/// `license` or `copying`.
pub open spec fn begins_as_license(lower_name: Seq<char>) -> bool {
    starts_with(lower_name, "license"@) || starts_with(lower_name, "copying"@)
}

/// A directory entry counts as a license file when its name, in
/// lowercase, begins with `license` or `copying`.
pub open spec fn names_license(file_name: Seq<char>) -> bool {
    begins_as_license(lowercased(file_name))
}

/// Whether a name in lowercase is that of a license file.
pub fn lower_name_is_license(lower_name: &str) -> (r: bool)
    ensures
        r == begins_as_license(lower_name@),
{
    has_prefix(lower_name, "license") || has_prefix(lower_name, "copying")
}

/// Whether a directory entry counts as a license file.
pub fn is_license_file_name(file_name: &str) -> (r: bool)
    ensures
        r == names_license(file_name@),
{
    let lower = to_lower(file_name);
    lower_name_is_license(lower.as_str())
}

/// Whether one of the names of a directory is that of a license file.
pub fn has_license_file(file_names: &Vec<String>) -> (r: bool)
    ensures
        r == exists|i: int| 0 <= i < file_names.len() && names_license(#[trigger] file_names[i]@),
{
    let mut i: usize = 0;
    while i < file_names.len()
        invariant
            i <= file_names.len(),
            forall|j: int| 0 <= j < i ==> !names_license(#[trigger] file_names[j]@),
        decreases file_names.len() - i,
    {
        if is_license_file_name(file_names[i].as_str()) {
            return true;
        }
        i += 1;
    }
    false
}

/// Whether the canonical path `path` lies at or below the canonical path
/// `root`: it is `root`, or it continues `root` with a `/`.
pub open spec fn is_within(path: Seq<char>, root: Seq<char>) -> bool {
    &&& starts_with(path, root)
    &&& (path.len() == root.len() || root.len() > 0 && root.last() == '/' || path[root.len() as int]
        == '/')
}

/// Whether a canonical path lies at or below another.
pub fn path_is_within(path: &str, root: &str) -> (r: bool)
    ensures
        r == is_within(path@, root@),
{
    if !has_prefix(path, root) {
        return false;
    }
    let p = to_chars(path);
    let r = to_chars(root);
    p.len() == r.len() || (r.len() > 0 && r[r.len() - 1] == '/') || p[r.len()] == '/'
}

/// What became of the attempt to resolve the path of a dependency.
#[derive(Debug, Clone)]
pub enum Resolution {
    /// The canonical path that it resolves to.
    Resolved(String),
    /// It could not be resolved; the text says why.
    Unresolvable(String),
}

/// The mathematical content of a [`Resolution`].
pub enum ResolutionView {
    Resolved(Seq<char>),
    Unresolvable(Seq<char>),
}

impl DeepView for Resolution {
    type V = ResolutionView;

    open spec fn deep_view(&self) -> ResolutionView {
        match self {
            Resolution::Resolved(p) => ResolutionView::Resolved(p@),
            Resolution::Unresolvable(d) => ResolutionView::Unresolvable(d@),
        }
    }
}

/// Where a dependency stands in a manifest, and how: the section, the
/// dependency's name, and the path it is given by.
#[derive(Debug, Clone)]
pub struct PathDependency {
    pub section: String,
    pub name: String,
    pub path: String,
}

/// The finding about a dependency that is given by a path, if there is
/// one: the path resolves to a place outside the project, or it does not
/// resolve at all.
pub open spec fn dependency_finding(
    section: Seq<char>,
    name: Seq<char>,
    path: Seq<char>,
    output: Seq<char>,
    canonical_output: Seq<char>,
    resolution: ResolutionView,
) -> Option<Seq<char>> {
    match resolution {
        ResolutionView::Resolved(canonical) => if is_within(canonical, canonical_output) {
            None
        } else {
            Some(
                "Potential internal path dependency found in section '["@ + section + "]': '"@
                    + name + "' points to '"@ + path + "' (outside "@ + output + ")"@,
            )
        },
        ResolutionView::Unresolvable(detail) => Some(
            "Path dependency '"@ + name + "' in section '["@ + section + "]' ('"@ + path
                + "') could not be canonicalized: "@ + detail
                + ". It might be invalid or point outside."@,
        ),
    }
}

/// Judges one dependency that is given by a path: see [`dependency_finding`].
pub fn check_path_dependency(
    dependency: &PathDependency,
    output: &str,
    canonical_output: &str,
    resolution: &Resolution,
) -> (r: Option<String>)
    ensures
        r.deep_view() == dependency_finding(
            dependency.section@,
            dependency.name@,
            dependency.path@,
            output@,
            canonical_output@,
            resolution.deep_view(),
        ),
{
    match resolution {
        Resolution::Resolved(canonical) => {
            if path_is_within(canonical.as_str(), canonical_output) {
                None
            } else {
                let mut m = owned("Potential internal path dependency found in section '[");
                m.append(dependency.section.as_str());
                m.append("]': '");
                m.append(dependency.name.as_str());
                m.append("' points to '");
                m.append(dependency.path.as_str());
                m.append("' (outside ");
                m.append(output);
                m.append(")");
                Some(m)
            }
        },
        Resolution::Unresolvable(detail) => {
            let mut m = owned("Path dependency '");
            m.append(dependency.name.as_str());
            m.append("' in section '[");
            m.append(dependency.section.as_str());
            m.append("]' ('");
            m.append(dependency.path.as_str());
            m.append("') could not be canonicalized: ");
            m.append(detail.as_str());
            m.append(". It might be invalid or point outside.");
            Some(m)
        },
    }
}

/// The result of the checks on a project, given whether its output path
/// exists and what was found there. A project whose output path does not
/// exist cannot be checked. Otherwise the result holds the findings of the
/// scan for secrets and of the look at its dependencies as they were made,
/// and whether one of the names in its directory is that of a license file.
pub fn check_project(
    project_id: &str,
    config: &ProjectConfig,
    output_exists: bool,
    secrets_found: Vec<String>,
    internal_deps_found: Vec<String>,
    file_names: &Vec<String>,
) -> (r: Result<CheckResult, PorterError>)
    ensures
        match r {
            Err(e) => !output_exists && e.deep_view() == ErrorView::PathNotFound(
                config.output_path@,
            ),
            Ok(result) => {
                &&& output_exists
                &&& result.project_id@ == project_id@
                &&& result.secrets_found == secrets_found
                &&& result.internal_deps_found == internal_deps_found
                &&& result.license_ok == exists|i: int|
                    0 <= i < file_names.len() && names_license(#[trigger] file_names[i]@)
            },
        },
{
    if !output_exists {
        return Err(PorterError::PathNotFound(owned(config.output_path.as_str())));
    }
    Ok(
        CheckResult {
            project_id: owned(project_id),
            secrets_found,
            internal_deps_found,
            license_ok: has_license_file(file_names),
        },
    )
}

} // verus!
