//! Typed representation of every manifest element: remotes, defaults,
//! projects, overlays and file directives.  Insertion order of the vectors is
//! significant: later entries may override earlier ones during merge.

use vstd::prelude::*;

verus! {

/// A repo manifest: the root aggregate describing the structure of a
/// multi-repository checkout.
#[derive(Debug, Clone)]
pub struct Manifest {
    /// Arbitrary text displayed to users when a sync finishes.
    pub notice: Option<String>,
    /// One or more remote elements may be specified.
    pub remotes: Vec<Remote>,
    /// At most one default element may be specified.
    pub default: Option<Default>,
    /// At most one manifest-server may be specified.
    pub manifest_server: Option<ManifestServer>,
    /// One or more submanifest elements may be specified.
    pub submanifests: Vec<Submanifest>,
    /// Deletes a project from the internal manifest table.
    pub remove_projects: Vec<RemoveProject>,
    /// One or more project elements may be specified.
    pub projects: Vec<Project>,
    /// Modify the attributes of the named project.
    pub extend_projects: Vec<ExtendProject>,
    /// Only one repo-hooks element may be specified at a time.
    pub repo_hooks: Option<RepoHooks>,
    /// The URL of the superproject.
    pub superproject: Option<Superproject>,
    /// Lets manifest authors self-register contact info.
    pub contactinfo: Option<ContactInfo>,
    /// Records of include directives that were resolved while loading.
    pub includes: Vec<Include>,
    /// One or more copyfile elements may be specified.
    pub copyfiles: Vec<CopyFile>,
    /// One or more linkfile elements may be specified.
    pub linkfiles: Vec<LinkFile>,
    /// One or more annotation elements may be specified.
    pub annotations: Vec<Annotation>,
}

#[derive(Debug, Clone)]
pub struct Remote {
    pub name: String,
    pub alias: Option<String>,
    pub fetch: String,
    pub pushurl: Option<String>,
    pub review: Option<String>,
    pub revision: Option<String>,
}

#[derive(Debug, Clone)]
pub struct Default {
    pub remote: Option<String>,
    pub revision: Option<String>,
    pub dest_branch: Option<String>,
    pub upstream: Option<String>,
    pub sync_j: Option<String>,
    pub sync_c: Option<String>,
    pub sync_s: Option<String>,
    pub sync_tags: Option<String>,
}

#[derive(Debug, Clone)]
pub struct ManifestServer {
    pub url: String,
}

#[derive(Debug, Clone)]
pub struct Submanifest {
    pub name: String,
    pub remote: Option<String>,
    pub project: Option<String>,
    pub manifest_name: Option<String>,
    pub revision: Option<String>,
    pub path: Option<String>,
    pub groups: Option<String>,
    pub default_groups: Option<String>,
}

/// One version-controlled directory to be checked out, defined by name, path,
/// remote and revision.  `path` is the on-disk location relative to the sync
/// target root and defaults to `name` when absent.
#[derive(Debug, Clone)]
pub struct Project {
    pub name: String,
    pub path: Option<String>,
    pub remote: Option<String>,
    pub revision: Option<String>,
    pub dest_branch: Option<String>,
    pub groups: Option<String>,
    pub sync_c: Option<String>,
    pub sync_s: Option<String>,
    pub sync_tags: Option<String>,
    pub upstream: Option<String>,
    pub clone_depth: Option<String>,
    pub force_path: Option<String>,
}

/// Overrides attributes of the project with a matching `name`; when `path` is
/// present it acts as a match guard against the existing project's path.
#[derive(Debug, Clone)]
pub struct ExtendProject {
    pub name: String,
    pub path: Option<String>,
    pub dest_path: Option<String>,
    pub groups: Option<String>,
    pub revision: Option<String>,
    pub remote: Option<String>,
    pub dest_branch: Option<String>,
    pub upstream: Option<String>,
    pub base_rev: Option<String>,
}

/// Identifies projects to delete from the effective set, by `name` and/or
/// `path`; `base_rev`, when present, guards the removal.
#[derive(Debug, Clone)]
pub struct RemoveProject {
    pub name: Option<String>,
    pub path: Option<String>,
    pub optional: Option<String>,
    pub base_rev: Option<String>,
}

#[derive(Debug, Clone)]
pub struct RepoHooks {
    pub in_project: String,
    pub enabled_list: String,
}

#[derive(Debug, Clone)]
pub struct Superproject {
    pub name: String,
    pub remote: Option<String>,
    pub revision: Option<String>,
}

#[derive(Debug, Clone)]
pub struct ContactInfo {
    pub bugurl: String,
}

#[derive(Debug, Clone)]
pub struct Include {
    pub name: String,
    pub groups: Option<String>,
    pub revision: Option<String>,
}

#[derive(Debug, Clone)]
pub struct CopyFile {
    pub src: String,
    pub dest: String,
}

#[derive(Debug, Clone)]
pub struct LinkFile {
    pub src: String,
    pub dest: String,
}

#[derive(Debug, Clone)]
pub struct Annotation {
    pub name: String,
    pub value: String,
    pub keep: bool,
}

// ---------------------------------------------------------------------------
// Mathematical views.  Contracts throughout the crate speak of these rather
// than of the executable structs, so that merge and load semantics can be
// written over `Seq` and `Option<Seq<char>>` values.
// ---------------------------------------------------------------------------

#[verifier::ext_equal]
pub ghost struct RemoteV {
    pub name: Seq<char>,
    pub alias: Option<Seq<char>>,
    pub fetch: Seq<char>,
    pub pushurl: Option<Seq<char>>,
    pub review: Option<Seq<char>>,
    pub revision: Option<Seq<char>>,
}

#[verifier::ext_equal]
pub ghost struct DefaultV {
    pub remote: Option<Seq<char>>,
    pub revision: Option<Seq<char>>,
    pub dest_branch: Option<Seq<char>>,
    pub upstream: Option<Seq<char>>,
    pub sync_j: Option<Seq<char>>,
    pub sync_c: Option<Seq<char>>,
    pub sync_s: Option<Seq<char>>,
    pub sync_tags: Option<Seq<char>>,
}

#[verifier::ext_equal]
pub ghost struct ManifestServerV {
    pub url: Seq<char>,
}

#[verifier::ext_equal]
pub ghost struct SubmanifestV {
    pub name: Seq<char>,
    pub remote: Option<Seq<char>>,
    pub project: Option<Seq<char>>,
    pub manifest_name: Option<Seq<char>>,
    pub revision: Option<Seq<char>>,
    pub path: Option<Seq<char>>,
    pub groups: Option<Seq<char>>,
    pub default_groups: Option<Seq<char>>,
}

#[verifier::ext_equal]
pub ghost struct ProjectV {
    pub name: Seq<char>,
    pub path: Option<Seq<char>>,
    pub remote: Option<Seq<char>>,
    pub revision: Option<Seq<char>>,
    pub dest_branch: Option<Seq<char>>,
    pub groups: Option<Seq<char>>,
    pub sync_c: Option<Seq<char>>,
    pub sync_s: Option<Seq<char>>,
    pub sync_tags: Option<Seq<char>>,
    pub upstream: Option<Seq<char>>,
    pub clone_depth: Option<Seq<char>>,
    pub force_path: Option<Seq<char>>,
}

#[verifier::ext_equal]
pub ghost struct ExtendProjectV {
    pub name: Seq<char>,
    pub path: Option<Seq<char>>,
    pub dest_path: Option<Seq<char>>,
    pub groups: Option<Seq<char>>,
    pub revision: Option<Seq<char>>,
    pub remote: Option<Seq<char>>,
    pub dest_branch: Option<Seq<char>>,
    pub upstream: Option<Seq<char>>,
    pub base_rev: Option<Seq<char>>,
}

#[verifier::ext_equal]
pub ghost struct RemoveProjectV {
    pub name: Option<Seq<char>>,
    pub path: Option<Seq<char>>,
    pub optional: Option<Seq<char>>,
    pub base_rev: Option<Seq<char>>,
}

#[verifier::ext_equal]
pub ghost struct RepoHooksV {
    pub in_project: Seq<char>,
    pub enabled_list: Seq<char>,
}

#[verifier::ext_equal]
pub ghost struct SuperprojectV {
    pub name: Seq<char>,
    pub remote: Option<Seq<char>>,
    pub revision: Option<Seq<char>>,
}

#[verifier::ext_equal]
pub ghost struct ContactInfoV {
    pub bugurl: Seq<char>,
}

#[verifier::ext_equal]
pub ghost struct IncludeV {
    pub name: Seq<char>,
    pub groups: Option<Seq<char>>,
    pub revision: Option<Seq<char>>,
}

#[verifier::ext_equal]
pub ghost struct CopyFileV {
    pub src: Seq<char>,
    pub dest: Seq<char>,
}

#[verifier::ext_equal]
pub ghost struct LinkFileV {
    pub src: Seq<char>,
    pub dest: Seq<char>,
}

#[verifier::ext_equal]
pub ghost struct AnnotationV {
    pub name: Seq<char>,
    pub value: Seq<char>,
    pub keep: bool,
}

#[verifier::ext_equal]
pub ghost struct ManifestV {
    pub notice: Option<Seq<char>>,
    pub remotes: Seq<RemoteV>,
    pub default: Option<DefaultV>,
    pub manifest_server: Option<ManifestServerV>,
    pub submanifests: Seq<SubmanifestV>,
    pub remove_projects: Seq<RemoveProjectV>,
    pub projects: Seq<ProjectV>,
    pub extend_projects: Seq<ExtendProjectV>,
    pub repo_hooks: Option<RepoHooksV>,
    pub superproject: Option<SuperprojectV>,
    pub contactinfo: Option<ContactInfoV>,
    pub includes: Seq<IncludeV>,
    pub copyfiles: Seq<CopyFileV>,
    pub linkfiles: Seq<LinkFileV>,
    pub annotations: Seq<AnnotationV>,
}

impl DeepView for Remote {
    type V = RemoteV;

    open spec fn deep_view(&self) -> RemoteV {
        RemoteV {
            name: self.name.deep_view(),
            alias: self.alias.deep_view(),
            fetch: self.fetch.deep_view(),
            pushurl: self.pushurl.deep_view(),
            review: self.review.deep_view(),
            revision: self.revision.deep_view(),
        }
    }
}

impl DeepView for Default {
    type V = DefaultV;

    open spec fn deep_view(&self) -> DefaultV {
        DefaultV {
            remote: self.remote.deep_view(),
            revision: self.revision.deep_view(),
            dest_branch: self.dest_branch.deep_view(),
            upstream: self.upstream.deep_view(),
            sync_j: self.sync_j.deep_view(),
            sync_c: self.sync_c.deep_view(),
            sync_s: self.sync_s.deep_view(),
            sync_tags: self.sync_tags.deep_view(),
        }
    }
}

impl DeepView for ManifestServer {
    type V = ManifestServerV;

    open spec fn deep_view(&self) -> ManifestServerV {
        ManifestServerV { url: self.url.deep_view() }
    }
}

impl DeepView for Submanifest {
    type V = SubmanifestV;

    open spec fn deep_view(&self) -> SubmanifestV {
        SubmanifestV {
            name: self.name.deep_view(),
            remote: self.remote.deep_view(),
            project: self.project.deep_view(),
            manifest_name: self.manifest_name.deep_view(),
            revision: self.revision.deep_view(),
            path: self.path.deep_view(),
            groups: self.groups.deep_view(),
            default_groups: self.default_groups.deep_view(),
        }
    }
}

impl DeepView for Project {
    type V = ProjectV;

    open spec fn deep_view(&self) -> ProjectV {
        ProjectV {
            name: self.name.deep_view(),
            path: self.path.deep_view(),
            remote: self.remote.deep_view(),
            revision: self.revision.deep_view(),
            dest_branch: self.dest_branch.deep_view(),
            groups: self.groups.deep_view(),
            sync_c: self.sync_c.deep_view(),
            sync_s: self.sync_s.deep_view(),
            sync_tags: self.sync_tags.deep_view(),
            upstream: self.upstream.deep_view(),
            clone_depth: self.clone_depth.deep_view(),
            force_path: self.force_path.deep_view(),
        }
    }
}

impl DeepView for ExtendProject {
    type V = ExtendProjectV;

    open spec fn deep_view(&self) -> ExtendProjectV {
        ExtendProjectV {
            name: self.name.deep_view(),
            path: self.path.deep_view(),
            dest_path: self.dest_path.deep_view(),
            groups: self.groups.deep_view(),
            revision: self.revision.deep_view(),
            remote: self.remote.deep_view(),
            dest_branch: self.dest_branch.deep_view(),
            upstream: self.upstream.deep_view(),
            base_rev: self.base_rev.deep_view(),
        }
    }
}

impl DeepView for RemoveProject {
    type V = RemoveProjectV;

    open spec fn deep_view(&self) -> RemoveProjectV {
        RemoveProjectV {
            name: self.name.deep_view(),
            path: self.path.deep_view(),
            optional: self.optional.deep_view(),
            base_rev: self.base_rev.deep_view(),
        }
    }
}

impl DeepView for RepoHooks {
    type V = RepoHooksV;

    open spec fn deep_view(&self) -> RepoHooksV {
        RepoHooksV {
            in_project: self.in_project.deep_view(),
            enabled_list: self.enabled_list.deep_view(),
        }
    }
}

impl DeepView for Superproject {
    type V = SuperprojectV;

    open spec fn deep_view(&self) -> SuperprojectV {
        SuperprojectV {
            name: self.name.deep_view(),
            remote: self.remote.deep_view(),
            revision: self.revision.deep_view(),
        }
    }
}

impl DeepView for ContactInfo {
    type V = ContactInfoV;

    open spec fn deep_view(&self) -> ContactInfoV {
        ContactInfoV { bugurl: self.bugurl.deep_view() }
    }
}

impl DeepView for Include {
    type V = IncludeV;

    open spec fn deep_view(&self) -> IncludeV {
        IncludeV {
            name: self.name.deep_view(),
            groups: self.groups.deep_view(),
            revision: self.revision.deep_view(),
        }
    }
}

impl DeepView for CopyFile {
    type V = CopyFileV;

    open spec fn deep_view(&self) -> CopyFileV {
        CopyFileV { src: self.src.deep_view(), dest: self.dest.deep_view() }
    }
}

impl DeepView for LinkFile {
    type V = LinkFileV;

    open spec fn deep_view(&self) -> LinkFileV {
        LinkFileV { src: self.src.deep_view(), dest: self.dest.deep_view() }
    }
}

impl DeepView for Annotation {
    type V = AnnotationV;

    open spec fn deep_view(&self) -> AnnotationV {
        AnnotationV {
            name: self.name.deep_view(),
            value: self.value.deep_view(),
            keep: self.keep,
        }
    }
}

impl DeepView for Manifest {
    type V = ManifestV;

    open spec fn deep_view(&self) -> ManifestV {
        ManifestV {
            notice: self.notice.deep_view(),
            remotes: self.remotes.deep_view(),
            default: self.default.deep_view(),
            manifest_server: self.manifest_server.deep_view(),
            submanifests: self.submanifests.deep_view(),
            remove_projects: self.remove_projects.deep_view(),
            projects: self.projects.deep_view(),
            extend_projects: self.extend_projects.deep_view(),
            repo_hooks: self.repo_hooks.deep_view(),
            superproject: self.superproject.deep_view(),
            contactinfo: self.contactinfo.deep_view(),
            includes: self.includes.deep_view(),
            copyfiles: self.copyfiles.deep_view(),
            linkfiles: self.linkfiles.deep_view(),
            annotations: self.annotations.deep_view(),
        }
    }
}

/// The view of a manifest with nothing in it.
pub open spec fn empty_manifest_view() -> ManifestV {
    ManifestV {
        notice: None,
        remotes: Seq::empty(),
        default: None,
        manifest_server: None,
        submanifests: Seq::empty(),
        remove_projects: Seq::empty(),
        projects: Seq::empty(),
        extend_projects: Seq::empty(),
        repo_hooks: None,
        superproject: None,
        contactinfo: None,
        includes: Seq::empty(),
        copyfiles: Seq::empty(),
        linkfiles: Seq::empty(),
        annotations: Seq::empty(),
    }
}

impl Manifest {
    /// A manifest with no elements at all.
    pub fn new() -> (m: Manifest)
        ensures
            m.deep_view() == empty_manifest_view(),
    {
        let m = Manifest {
            notice: None,
            remotes: Vec::new(),
            default: None,
            manifest_server: None,
            submanifests: Vec::new(),
            remove_projects: Vec::new(),
            projects: Vec::new(),
            extend_projects: Vec::new(),
            repo_hooks: None,
            superproject: None,
            contactinfo: None,
            includes: Vec::new(),
            copyfiles: Vec::new(),
            linkfiles: Vec::new(),
            annotations: Vec::new(),
        };
        proof {
            assert(m.deep_view() =~= empty_manifest_view());
        }
        m
    }
}

} // verus!
