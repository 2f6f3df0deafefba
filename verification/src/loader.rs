//! The manifest loader: an exact, verified interpretation of the plain XML
//! event stream of one document, include absorption, and synthesis of the
//! fallback default element.  Reading files and chasing include directives
//! across documents is the caller's work; every decision about what a
//! document means is made and proved here.

use vstd::prelude::*;
use vstd::string::StrSliceExecFns;
use crate::model::{
    Annotation, AnnotationV, ContactInfo, ContactInfoV, CopyFile, CopyFileV, DefaultV,
    ExtendProject, ExtendProjectV, Include, IncludeV, LinkFile, LinkFileV, Manifest,
    ManifestServer, ManifestServerV, ManifestV, Project, ProjectV, Remote, RemoteV, RemoveProject,
    RemoveProjectV, RepoHooks, RepoHooksV, Submanifest, SubmanifestV, Superproject,
    SuperprojectV, empty_manifest_view,
};
use crate::strutil::lemma_deep_view_push;
use crate::xml::{read_xml_events, xml_events_of, XmlEvent, XmlEventV};

verus! {

/// Errors of the loading stage.  `Parse` and `Schema` arise from one
/// document's own text; the include variants are raised by the caller while
/// it resolves include directives against what it could read from disk.
#[derive(Debug)]
pub enum LoadError {
    /// Malformed XML, or a malformed attribute on a recognized element.
    Parse,
    /// A required attribute is missing or empty on a remote or project.
    Schema,
    /// A named include could not be loaded.
    Include { name: String },
    /// An include chain returned to a file that is still being loaded.
    IncludeCycle { path: String },
}

// ---------------------------------------------------------------------------
// Attributes.
// ---------------------------------------------------------------------------

/// The value of the last attribute with the given key, if any: a repeated
/// attribute key overwrites its earlier value.
pub open spec fn attr_last(attrs: Seq<(Seq<char>, Seq<char>)>, key: Seq<char>) -> Option<
    Seq<char>,
>
    decreases attrs.len(),
{
    if attrs.len() == 0 {
        None
    } else if attrs.last().0 == key {
        Some(attrs.last().1)
    } else {
        attr_last(attrs.drop_last(), key)
    }
}

/// The value of the first attribute with the given key, if any.
pub open spec fn attr_first(attrs: Seq<(Seq<char>, Seq<char>)>, key: Seq<char>) -> Option<
    Seq<char>,
>
    decreases attrs.len(),
{
    if attrs.len() == 0 {
        None
    } else if attrs[0].0 == key {
        Some(attrs[0].1)
    } else {
        attr_first(attrs.drop_first(), key)
    }
}

/// The last value under the key, or the empty text when the key is absent.
pub open spec fn attr_or_empty(attrs: Seq<(Seq<char>, Seq<char>)>, key: Seq<char>) -> Seq<char> {
    match attr_last(attrs, key) {
        Some(v) => v,
        None => Seq::empty(),
    }
}

/// Whether the text reads `true` regardless of letter case.  This is what
/// lowercasing the text and comparing with `true` yields, since only the
/// upper-case forms of these four letters lowercase onto them.
pub open spec fn spec_is_true_ci(v: Seq<char>) -> bool {
    v.len() == 4 && (v[0] == 't' || v[0] == 'T') && (v[1] == 'r' || v[1] == 'R') && (v[2] == 'u'
        || v[2] == 'U') && (v[3] == 'e' || v[3] == 'E')
}

fn is_true_ci(v: &String) -> (r: bool)
    ensures
        r == spec_is_true_ci(v@),
{
    let s = v.as_str();
    s.unicode_len() == 4 && (s.get_char(0) == 't' || s.get_char(0) == 'T') && (s.get_char(1)
        == 'r' || s.get_char(1) == 'R') && (s.get_char(2) == 'u' || s.get_char(2) == 'U') && (
    s.get_char(3) == 'e' || s.get_char(3) == 'E')
}

/// The first value under the key, as an owned string.
fn attr_find_first(attrs: &Vec<(String, String)>, key: &String) -> (r: Option<String>)
    ensures
        r.deep_view() == attr_first(attrs.deep_view(), key@),
{
    let mut i: usize = 0;
    proof {
        assert(attrs.deep_view().skip(0) =~= attrs.deep_view());
    }
    while i < attrs.len()
        invariant
            i <= attrs.len(),
            attr_first(attrs.deep_view(), key@) == attr_first(
                attrs.deep_view().skip(i as int),
                key@,
            ),
        decreases attrs.len() - i,
    {
        proof {
            assert(attrs.deep_view().skip(i as int)[0] == attrs.deep_view()[i as int]);
            assert(attrs.deep_view().skip(i as int).drop_first() =~= attrs.deep_view().skip(
                i as int + 1,
            ));
            assert(attrs.deep_view()[i as int].0 == attrs@[i as int].0@);
            assert(attrs.deep_view()[i as int].1 == attrs@[i as int].1@);
        }
        if attrs[i].0.eq(key) {
            return Some(attrs[i].1.clone());
        }
        i = i + 1;
    }
    None
}

// ---------------------------------------------------------------------------
// One element's contribution, per element kind.
// ---------------------------------------------------------------------------

pub open spec fn spec_remote_of(a: Seq<(Seq<char>, Seq<char>)>) -> RemoteV {
    RemoteV {
        name: attr_or_empty(a, "name"@),
        alias: attr_last(a, "alias"@),
        fetch: attr_or_empty(a, "fetch"@),
        pushurl: attr_last(a, "pushurl"@),
        review: attr_last(a, "review"@),
        revision: attr_last(a, "revision"@),
    }
}

pub open spec fn spec_submanifest_of(a: Seq<(Seq<char>, Seq<char>)>) -> SubmanifestV {
    SubmanifestV {
        name: attr_or_empty(a, "name"@),
        remote: attr_last(a, "remote"@),
        project: attr_last(a, "project"@),
        manifest_name: attr_last(a, "manifest-name"@),
        revision: attr_last(a, "revision"@),
        path: attr_last(a, "path"@),
        groups: attr_last(a, "groups"@),
        default_groups: attr_last(a, "default-groups"@),
    }
}

pub open spec fn spec_remove_project_of(a: Seq<(Seq<char>, Seq<char>)>) -> RemoveProjectV {
    RemoveProjectV {
        name: attr_last(a, "name"@),
        path: attr_last(a, "path"@),
        optional: attr_last(a, "optional"@),
        base_rev: attr_last(a, "base-rev"@),
    }
}

pub open spec fn spec_project_of(a: Seq<(Seq<char>, Seq<char>)>) -> ProjectV {
    ProjectV {
        name: attr_or_empty(a, "name"@),
        path: attr_last(a, "path"@),
        remote: attr_last(a, "remote"@),
        revision: attr_last(a, "revision"@),
        dest_branch: attr_last(a, "dest-branch"@),
        groups: attr_last(a, "groups"@),
        sync_c: attr_last(a, "sync-c"@),
        sync_s: attr_last(a, "sync-s"@),
        sync_tags: attr_last(a, "sync-tags"@),
        upstream: attr_last(a, "upstream"@),
        clone_depth: attr_last(a, "clone-depth"@),
        force_path: attr_last(a, "force-path"@),
    }
}

pub open spec fn spec_extend_project_of(a: Seq<(Seq<char>, Seq<char>)>) -> ExtendProjectV {
    ExtendProjectV {
        name: attr_or_empty(a, "name"@),
        path: attr_last(a, "path"@),
        dest_path: attr_last(a, "dest-path"@),
        groups: attr_last(a, "groups"@),
        revision: attr_last(a, "revision"@),
        remote: attr_last(a, "remote"@),
        dest_branch: attr_last(a, "dest-branch"@),
        upstream: attr_last(a, "upstream"@),
        base_rev: attr_last(a, "base-rev"@),
    }
}

pub open spec fn spec_include_of(a: Seq<(Seq<char>, Seq<char>)>) -> IncludeV {
    IncludeV {
        name: attr_or_empty(a, "name"@),
        groups: attr_last(a, "groups"@),
        revision: attr_last(a, "revision"@),
    }
}

pub open spec fn spec_copyfile_of(a: Seq<(Seq<char>, Seq<char>)>) -> CopyFileV {
    CopyFileV {
        src: attr_or_empty(a, "src"@),
        dest: attr_or_empty(a, "dest"@),
    }
}

pub open spec fn spec_linkfile_of(a: Seq<(Seq<char>, Seq<char>)>) -> LinkFileV {
    LinkFileV {
        src: attr_or_empty(a, "src"@),
        dest: attr_or_empty(a, "dest"@),
    }
}

pub open spec fn spec_annotation_of(a: Seq<(Seq<char>, Seq<char>)>) -> AnnotationV {
    AnnotationV {
        name: attr_or_empty(a, "name"@),
        value: attr_or_empty(a, "value"@),
        keep: match attr_last(a, "keep"@) {
            Some(v) => spec_is_true_ci(v),
            None => true,
        },
    }
}

pub open spec fn spec_default_of(a: Seq<(Seq<char>, Seq<char>)>) -> DefaultV {
    DefaultV {
        remote: attr_last(a, "remote"@),
        revision: attr_last(a, "revision"@),
        dest_branch: attr_last(a, "dest-branch"@),
        upstream: attr_last(a, "upstream"@),
        sync_j: attr_last(a, "sync-j"@),
        sync_c: attr_last(a, "sync-c"@),
        sync_s: attr_last(a, "sync-s"@),
        sync_tags: attr_last(a, "sync-tags"@),
    }
}

pub open spec fn spec_repo_hooks_of(a: Seq<(Seq<char>, Seq<char>)>) -> RepoHooksV {
    RepoHooksV {
        in_project: attr_or_empty(a, "in-project"@),
        enabled_list: attr_or_empty(a, "enabled-list"@),
    }
}

pub open spec fn spec_superproject_of(a: Seq<(Seq<char>, Seq<char>)>) -> SuperprojectV {
    SuperprojectV {
        name: attr_or_empty(a, "name"@),
        remote: attr_last(a, "remote"@),
        revision: attr_last(a, "revision"@),
    }
}

pub open spec fn spec_elem_remote(m: ManifestV, attrs: Option<Seq<(Seq<char>, Seq<char>)>>) -> Result<
    ManifestV,
    LoadError,
> {
    match attrs {
        None => Err(LoadError::Parse),
        Some(a) => {
            let e = spec_remote_of(a);
            if e.name.len() == 0 || e.fetch.len() == 0 {
                Err(LoadError::Schema)
            } else {
                Ok(ManifestV { remotes: m.remotes.push(e), ..m })
            }
        },
    }
}

pub open spec fn spec_elem_submanifest(m: ManifestV, attrs: Option<Seq<(Seq<char>, Seq<char>)>>) -> Result<
    ManifestV,
    LoadError,
> {
    match attrs {
        None => Err(LoadError::Parse),
        Some(a) => {
            let e = spec_submanifest_of(a);
            Ok(ManifestV { submanifests: m.submanifests.push(e), ..m })
        },
    }
}

pub open spec fn spec_elem_remove_project(m: ManifestV, attrs: Option<Seq<(Seq<char>, Seq<char>)>>) -> Result<
    ManifestV,
    LoadError,
> {
    match attrs {
        None => Err(LoadError::Parse),
        Some(a) => {
            let e = spec_remove_project_of(a);
            Ok(ManifestV { remove_projects: m.remove_projects.push(e), ..m })
        },
    }
}

pub open spec fn spec_elem_project(m: ManifestV, attrs: Option<Seq<(Seq<char>, Seq<char>)>>) -> Result<
    ManifestV,
    LoadError,
> {
    match attrs {
        None => Err(LoadError::Parse),
        Some(a) => {
            let e = spec_project_of(a);
            if e.name.len() == 0 {
                Err(LoadError::Schema)
            } else {
                Ok(ManifestV { projects: m.projects.push(e), ..m })
            }
        },
    }
}

pub open spec fn spec_elem_extend_project(m: ManifestV, attrs: Option<Seq<(Seq<char>, Seq<char>)>>) -> Result<
    ManifestV,
    LoadError,
> {
    match attrs {
        None => Err(LoadError::Parse),
        Some(a) => {
            let e = spec_extend_project_of(a);
            Ok(ManifestV { extend_projects: m.extend_projects.push(e), ..m })
        },
    }
}

pub open spec fn spec_elem_include(m: ManifestV, attrs: Option<Seq<(Seq<char>, Seq<char>)>>) -> Result<
    ManifestV,
    LoadError,
> {
    match attrs {
        None => Err(LoadError::Parse),
        Some(a) => {
            let e = spec_include_of(a);
            Ok(ManifestV { includes: m.includes.push(e), ..m })
        },
    }
}

pub open spec fn spec_elem_copyfile(m: ManifestV, attrs: Option<Seq<(Seq<char>, Seq<char>)>>) -> Result<
    ManifestV,
    LoadError,
> {
    match attrs {
        None => Err(LoadError::Parse),
        Some(a) => {
            let e = spec_copyfile_of(a);
            Ok(ManifestV { copyfiles: m.copyfiles.push(e), ..m })
        },
    }
}

pub open spec fn spec_elem_linkfile(m: ManifestV, attrs: Option<Seq<(Seq<char>, Seq<char>)>>) -> Result<
    ManifestV,
    LoadError,
> {
    match attrs {
        None => Err(LoadError::Parse),
        Some(a) => {
            let e = spec_linkfile_of(a);
            Ok(ManifestV { linkfiles: m.linkfiles.push(e), ..m })
        },
    }
}

pub open spec fn spec_elem_annotation(m: ManifestV, attrs: Option<Seq<(Seq<char>, Seq<char>)>>) -> Result<
    ManifestV,
    LoadError,
> {
    match attrs {
        None => Err(LoadError::Parse),
        Some(a) => {
            let e = spec_annotation_of(a);
            Ok(ManifestV { annotations: m.annotations.push(e), ..m })
        },
    }
}

pub open spec fn spec_elem_default(m: ManifestV, attrs: Option<Seq<(Seq<char>, Seq<char>)>>) -> Result<
    ManifestV,
    LoadError,
> {
    match attrs {
        None => Err(LoadError::Parse),
        Some(a) => Ok(ManifestV { default: Some(spec_default_of(a)), ..m }),
    }
}

pub open spec fn spec_elem_repo_hooks(m: ManifestV, attrs: Option<Seq<(Seq<char>, Seq<char>)>>) -> Result<
    ManifestV,
    LoadError,
> {
    match attrs {
        None => Err(LoadError::Parse),
        Some(a) => Ok(ManifestV { repo_hooks: Some(spec_repo_hooks_of(a)), ..m }),
    }
}

pub open spec fn spec_elem_superproject(m: ManifestV, attrs: Option<Seq<(Seq<char>, Seq<char>)>>) -> Result<
    ManifestV,
    LoadError,
> {
    match attrs {
        None => Err(LoadError::Parse),
        Some(a) => Ok(ManifestV { superproject: Some(spec_superproject_of(a)), ..m }),
    }
}

pub open spec fn spec_elem_manifest_server(
    m: ManifestV,
    attrs: Option<Seq<(Seq<char>, Seq<char>)>>,
) -> Result<ManifestV, LoadError> {
    match attrs {
        None => Err(LoadError::Parse),
        Some(a) => match attr_first(a, "url"@) {
            Some(u) => Ok(ManifestV { manifest_server: Some(ManifestServerV { url: u }), ..m }),
            None => Ok(m),
        },
    }
}

pub open spec fn spec_elem_contactinfo(
    m: ManifestV,
    attrs: Option<Seq<(Seq<char>, Seq<char>)>>,
) -> Result<ManifestV, LoadError> {
    match attrs {
        None => Err(LoadError::Parse),
        Some(a) => match attr_first(a, "bugurl"@) {
            Some(u) => Ok(ManifestV { contactinfo: Some(ContactInfoV { bugurl: u }), ..m }),
            None => Ok(m),
        },
    }
}

/// What one recognized start or empty element does to the manifest being
/// built; unrecognized element names are skipped without looking at their
/// attributes.  The `notice` element is handled by the event walk, which
/// must consume the following text event.
pub open spec fn spec_apply_elem(
    m: ManifestV,
    name: Seq<char>,
    attrs: Option<Seq<(Seq<char>, Seq<char>)>>,
) -> Result<ManifestV, LoadError> {
    if name == "remote"@ {
        spec_elem_remote(m, attrs)
    } else if name == "default"@ {
        spec_elem_default(m, attrs)
    } else if name == "manifest-server"@ {
        spec_elem_manifest_server(m, attrs)
    } else if name == "submanifest"@ {
        spec_elem_submanifest(m, attrs)
    } else if name == "remove-project"@ {
        spec_elem_remove_project(m, attrs)
    } else if name == "project"@ {
        spec_elem_project(m, attrs)
    } else if name == "extend-project"@ {
        spec_elem_extend_project(m, attrs)
    } else if name == "repo-hooks"@ {
        spec_elem_repo_hooks(m, attrs)
    } else if name == "superproject"@ {
        spec_elem_superproject(m, attrs)
    } else if name == "contactinfo"@ {
        spec_elem_contactinfo(m, attrs)
    } else if name == "include"@ {
        spec_elem_include(m, attrs)
    } else if name == "copyfile"@ {
        spec_elem_copyfile(m, attrs)
    } else if name == "linkfile"@ {
        spec_elem_linkfile(m, attrs)
    } else if name == "annotation"@ {
        spec_elem_annotation(m, attrs)
    } else {
        Ok(m)
    }
}

/// The walk over a document's events from position `i` with the manifest
/// built so far: elements contribute via [`spec_apply_elem`], a `notice`
/// element captures the immediately following text event (and consumes
/// whatever event follows it), all other events are skipped.
pub open spec fn spec_parse_from(events: Seq<XmlEventV>, i: int, m: ManifestV) -> Result<
    ManifestV,
    LoadError,
>
    decreases events.len() - i,
{
    if i < 0 || i >= events.len() {
        Ok(m)
    } else {
        match events[i] {
            XmlEventV::Elem { name, attrs } => {
                if name == "notice"@ {
                    if i + 1 >= events.len() {
                        spec_parse_from(events, i + 1, m)
                    } else {
                        match events[i + 1] {
                            XmlEventV::Text { content } => match content {
                                Some(t) => spec_parse_from(
                                    events,
                                    i + 2,
                                    ManifestV { notice: Some(t), ..m },
                                ),
                                None => Err(LoadError::Parse),
                            },
                            _ => spec_parse_from(events, i + 2, m),
                        }
                    }
                } else {
                    match spec_apply_elem(m, name, attrs) {
                        Ok(m2) => spec_parse_from(events, i + 1, m2),
                        Err(e) => Err(e),
                    }
                }
            },
            _ => spec_parse_from(events, i + 1, m),
        }
    }
}

/// What loading one document from its bytes yields: the scan's events walked
/// from an empty manifest, or the parse error when the scan fails.
pub open spec fn spec_parse_document(input: Seq<u8>) -> Result<ManifestV, LoadError> {
    match xml_events_of(input) {
        None => Err(LoadError::Parse),
        Some(es) => spec_parse_from(es, 0, empty_manifest_view()),
    }
}
// ---------------------------------------------------------------------------
// Executable element parsing.
// ---------------------------------------------------------------------------

fn parse_remote(attrs: &Vec<(String, String)>) -> (r: Remote)
    ensures
        r.deep_view() == spec_remote_of(attrs.deep_view()),
{
    let k_name = "name".to_owned();
    let k_alias = "alias".to_owned();
    let k_fetch = "fetch".to_owned();
    let k_pushurl = "pushurl".to_owned();
    let k_review = "review".to_owned();
    let k_revision = "revision".to_owned();
    let mut f_name = String::new();
    let mut f_alias: Option<String> = None;
    let mut f_fetch = String::new();
    let mut f_pushurl: Option<String> = None;
    let mut f_review: Option<String> = None;
    let mut f_revision: Option<String> = None;
    let mut i: usize = 0;
    proof {
        assert(attrs.deep_view().take(0) =~= Seq::<(Seq<char>, Seq<char>)>::empty());
    }
    while i < attrs.len()
        invariant
            i <= attrs.len(),
            k_name@ == "name"@,
            k_alias@ == "alias"@,
            k_fetch@ == "fetch"@,
            k_pushurl@ == "pushurl"@,
            k_review@ == "review"@,
            k_revision@ == "revision"@,
            f_name@ == attr_or_empty(attrs.deep_view().take(i as int), "name"@),
            f_alias.deep_view() == attr_last(attrs.deep_view().take(i as int), "alias"@),
            f_fetch@ == attr_or_empty(attrs.deep_view().take(i as int), "fetch"@),
            f_pushurl.deep_view() == attr_last(attrs.deep_view().take(i as int), "pushurl"@),
            f_review.deep_view() == attr_last(attrs.deep_view().take(i as int), "review"@),
            f_revision.deep_view() == attr_last(attrs.deep_view().take(i as int), "revision"@),
        decreases attrs.len() - i,
    {
        proof {
            reveal_strlit("name");
            reveal_strlit("alias");
            reveal_strlit("fetch");
            reveal_strlit("pushurl");
            reveal_strlit("review");
            reveal_strlit("revision");
            assert("alias"@ != "fetch"@) by {
                assert("alias"@[0] == 'a');
                assert("fetch"@[0] == 'f');
            }
            assert(attrs.deep_view().take(i as int + 1).drop_last() =~= attrs.deep_view().take(
                i as int,
            ));
            assert(attrs.deep_view().take(i as int + 1).last() == attrs.deep_view()[i as int]);
            assert(attrs.deep_view()[i as int].0 == attrs@[i as int].0@);
            assert(attrs.deep_view()[i as int].1 == attrs@[i as int].1@);
        }
        let key = &attrs[i].0;
        let value = &attrs[i].1;
        if key.eq(&k_name) {
            f_name = value.clone();
        } else if key.eq(&k_alias) {
            f_alias = Some(value.clone());
        } else if key.eq(&k_fetch) {
            f_fetch = value.clone();
        } else if key.eq(&k_pushurl) {
            f_pushurl = Some(value.clone());
        } else if key.eq(&k_review) {
            f_review = Some(value.clone());
        } else if key.eq(&k_revision) {
            f_revision = Some(value.clone());
        }
        i = i + 1;
    }
    proof {
        assert(attrs.deep_view().take(attrs.len() as int) =~= attrs.deep_view());
    }
    let r = Remote {
        name: f_name,
        alias: f_alias,
        fetch: f_fetch,
        pushurl: f_pushurl,
        review: f_review,
        revision: f_revision,
    };
    proof {
        assert(r.deep_view() =~= spec_remote_of(attrs.deep_view()));
    }
    r
}


fn parse_submanifest(attrs: &Vec<(String, String)>) -> (r: Submanifest)
    ensures
        r.deep_view() == spec_submanifest_of(attrs.deep_view()),
{
    let k_name = "name".to_owned();
    let k_remote = "remote".to_owned();
    let k_project = "project".to_owned();
    let k_manifest_name = "manifest-name".to_owned();
    let k_revision = "revision".to_owned();
    let k_path = "path".to_owned();
    let k_groups = "groups".to_owned();
    let k_default_groups = "default-groups".to_owned();
    let mut f_name = String::new();
    let mut f_remote: Option<String> = None;
    let mut f_project: Option<String> = None;
    let mut f_manifest_name: Option<String> = None;
    let mut f_revision: Option<String> = None;
    let mut f_path: Option<String> = None;
    let mut f_groups: Option<String> = None;
    let mut f_default_groups: Option<String> = None;
    let mut i: usize = 0;
    proof {
        assert(attrs.deep_view().take(0) =~= Seq::<(Seq<char>, Seq<char>)>::empty());
    }
    while i < attrs.len()
        invariant
            i <= attrs.len(),
            k_name@ == "name"@,
            k_remote@ == "remote"@,
            k_project@ == "project"@,
            k_manifest_name@ == "manifest-name"@,
            k_revision@ == "revision"@,
            k_path@ == "path"@,
            k_groups@ == "groups"@,
            k_default_groups@ == "default-groups"@,
            f_name@ == attr_or_empty(attrs.deep_view().take(i as int), "name"@),
            f_remote.deep_view() == attr_last(attrs.deep_view().take(i as int), "remote"@),
            f_project.deep_view() == attr_last(attrs.deep_view().take(i as int), "project"@),
            f_manifest_name.deep_view() == attr_last(attrs.deep_view().take(i as int), "manifest-name"@),
            f_revision.deep_view() == attr_last(attrs.deep_view().take(i as int), "revision"@),
            f_path.deep_view() == attr_last(attrs.deep_view().take(i as int), "path"@),
            f_groups.deep_view() == attr_last(attrs.deep_view().take(i as int), "groups"@),
            f_default_groups.deep_view() == attr_last(attrs.deep_view().take(i as int), "default-groups"@),
        decreases attrs.len() - i,
    {
        proof {
            reveal_strlit("name");
            reveal_strlit("remote");
            reveal_strlit("project");
            reveal_strlit("manifest-name");
            reveal_strlit("revision");
            reveal_strlit("path");
            reveal_strlit("groups");
            reveal_strlit("default-groups");
            assert("name"@ != "path"@) by {
                assert("name"@[0] == 'n');
                assert("path"@[0] == 'p');
            }
            assert("remote"@ != "groups"@) by {
                assert("remote"@[0] == 'r');
                assert("groups"@[0] == 'g');
            }
            assert(attrs.deep_view().take(i as int + 1).drop_last() =~= attrs.deep_view().take(
                i as int,
            ));
            assert(attrs.deep_view().take(i as int + 1).last() == attrs.deep_view()[i as int]);
            assert(attrs.deep_view()[i as int].0 == attrs@[i as int].0@);
            assert(attrs.deep_view()[i as int].1 == attrs@[i as int].1@);
        }
        let key = &attrs[i].0;
        let value = &attrs[i].1;
        if key.eq(&k_name) {
            f_name = value.clone();
        } else if key.eq(&k_remote) {
            f_remote = Some(value.clone());
        } else if key.eq(&k_project) {
            f_project = Some(value.clone());
        } else if key.eq(&k_manifest_name) {
            f_manifest_name = Some(value.clone());
        } else if key.eq(&k_revision) {
            f_revision = Some(value.clone());
        } else if key.eq(&k_path) {
            f_path = Some(value.clone());
        } else if key.eq(&k_groups) {
            f_groups = Some(value.clone());
        } else if key.eq(&k_default_groups) {
            f_default_groups = Some(value.clone());
        }
        i = i + 1;
    }
    proof {
        assert(attrs.deep_view().take(attrs.len() as int) =~= attrs.deep_view());
    }
    let r = Submanifest {
        name: f_name,
        remote: f_remote,
        project: f_project,
        manifest_name: f_manifest_name,
        revision: f_revision,
        path: f_path,
        groups: f_groups,
        default_groups: f_default_groups,
    };
    proof {
        assert(r.deep_view() =~= spec_submanifest_of(attrs.deep_view()));
    }
    r
}


fn parse_remove_project(attrs: &Vec<(String, String)>) -> (r: RemoveProject)
    ensures
        r.deep_view() == spec_remove_project_of(attrs.deep_view()),
{
    let k_name = "name".to_owned();
    let k_path = "path".to_owned();
    let k_optional = "optional".to_owned();
    let k_base_rev = "base-rev".to_owned();
    let mut f_name: Option<String> = None;
    let mut f_path: Option<String> = None;
    let mut f_optional: Option<String> = None;
    let mut f_base_rev: Option<String> = None;
    let mut i: usize = 0;
    proof {
        assert(attrs.deep_view().take(0) =~= Seq::<(Seq<char>, Seq<char>)>::empty());
    }
    while i < attrs.len()
        invariant
            i <= attrs.len(),
            k_name@ == "name"@,
            k_path@ == "path"@,
            k_optional@ == "optional"@,
            k_base_rev@ == "base-rev"@,
            f_name.deep_view() == attr_last(attrs.deep_view().take(i as int), "name"@),
            f_path.deep_view() == attr_last(attrs.deep_view().take(i as int), "path"@),
            f_optional.deep_view() == attr_last(attrs.deep_view().take(i as int), "optional"@),
            f_base_rev.deep_view() == attr_last(attrs.deep_view().take(i as int), "base-rev"@),
        decreases attrs.len() - i,
    {
        proof {
            reveal_strlit("name");
            reveal_strlit("path");
            reveal_strlit("optional");
            reveal_strlit("base-rev");
            assert("name"@ != "path"@) by {
                assert("name"@[0] == 'n');
                assert("path"@[0] == 'p');
            }
            assert("optional"@ != "base-rev"@) by {
                assert("optional"@[0] == 'o');
                assert("base-rev"@[0] == 'b');
            }
            assert(attrs.deep_view().take(i as int + 1).drop_last() =~= attrs.deep_view().take(
                i as int,
            ));
            assert(attrs.deep_view().take(i as int + 1).last() == attrs.deep_view()[i as int]);
            assert(attrs.deep_view()[i as int].0 == attrs@[i as int].0@);
            assert(attrs.deep_view()[i as int].1 == attrs@[i as int].1@);
        }
        let key = &attrs[i].0;
        let value = &attrs[i].1;
        if key.eq(&k_name) {
            f_name = Some(value.clone());
        } else if key.eq(&k_path) {
            f_path = Some(value.clone());
        } else if key.eq(&k_optional) {
            f_optional = Some(value.clone());
        } else if key.eq(&k_base_rev) {
            f_base_rev = Some(value.clone());
        }
        i = i + 1;
    }
    proof {
        assert(attrs.deep_view().take(attrs.len() as int) =~= attrs.deep_view());
    }
    let r = RemoveProject {
        name: f_name,
        path: f_path,
        optional: f_optional,
        base_rev: f_base_rev,
    };
    proof {
        assert(r.deep_view() =~= spec_remove_project_of(attrs.deep_view()));
    }
    r
}


fn parse_project(attrs: &Vec<(String, String)>) -> (r: Project)
    ensures
        r.deep_view() == spec_project_of(attrs.deep_view()),
{
    let k_name = "name".to_owned();
    let k_path = "path".to_owned();
    let k_remote = "remote".to_owned();
    let k_revision = "revision".to_owned();
    let k_dest_branch = "dest-branch".to_owned();
    let k_groups = "groups".to_owned();
    let k_sync_c = "sync-c".to_owned();
    let k_sync_s = "sync-s".to_owned();
    let k_sync_tags = "sync-tags".to_owned();
    let k_upstream = "upstream".to_owned();
    let k_clone_depth = "clone-depth".to_owned();
    let k_force_path = "force-path".to_owned();
    let mut f_name = String::new();
    let mut f_path: Option<String> = None;
    let mut f_remote: Option<String> = None;
    let mut f_revision: Option<String> = None;
    let mut f_dest_branch: Option<String> = None;
    let mut f_groups: Option<String> = None;
    let mut f_sync_c: Option<String> = None;
    let mut f_sync_s: Option<String> = None;
    let mut f_sync_tags: Option<String> = None;
    let mut f_upstream: Option<String> = None;
    let mut f_clone_depth: Option<String> = None;
    let mut f_force_path: Option<String> = None;
    let mut i: usize = 0;
    proof {
        assert(attrs.deep_view().take(0) =~= Seq::<(Seq<char>, Seq<char>)>::empty());
    }
    while i < attrs.len()
        invariant
            i <= attrs.len(),
            k_name@ == "name"@,
            k_path@ == "path"@,
            k_remote@ == "remote"@,
            k_revision@ == "revision"@,
            k_dest_branch@ == "dest-branch"@,
            k_groups@ == "groups"@,
            k_sync_c@ == "sync-c"@,
            k_sync_s@ == "sync-s"@,
            k_sync_tags@ == "sync-tags"@,
            k_upstream@ == "upstream"@,
            k_clone_depth@ == "clone-depth"@,
            k_force_path@ == "force-path"@,
            f_name@ == attr_or_empty(attrs.deep_view().take(i as int), "name"@),
            f_path.deep_view() == attr_last(attrs.deep_view().take(i as int), "path"@),
            f_remote.deep_view() == attr_last(attrs.deep_view().take(i as int), "remote"@),
            f_revision.deep_view() == attr_last(attrs.deep_view().take(i as int), "revision"@),
            f_dest_branch.deep_view() == attr_last(attrs.deep_view().take(i as int), "dest-branch"@),
            f_groups.deep_view() == attr_last(attrs.deep_view().take(i as int), "groups"@),
            f_sync_c.deep_view() == attr_last(attrs.deep_view().take(i as int), "sync-c"@),
            f_sync_s.deep_view() == attr_last(attrs.deep_view().take(i as int), "sync-s"@),
            f_sync_tags.deep_view() == attr_last(attrs.deep_view().take(i as int), "sync-tags"@),
            f_upstream.deep_view() == attr_last(attrs.deep_view().take(i as int), "upstream"@),
            f_clone_depth.deep_view() == attr_last(attrs.deep_view().take(i as int), "clone-depth"@),
            f_force_path.deep_view() == attr_last(attrs.deep_view().take(i as int), "force-path"@),
        decreases attrs.len() - i,
    {
        proof {
            reveal_strlit("name");
            reveal_strlit("path");
            reveal_strlit("remote");
            reveal_strlit("revision");
            reveal_strlit("dest-branch");
            reveal_strlit("groups");
            reveal_strlit("sync-c");
            reveal_strlit("sync-s");
            reveal_strlit("sync-tags");
            reveal_strlit("upstream");
            reveal_strlit("clone-depth");
            reveal_strlit("force-path");
            assert("name"@ != "path"@) by {
                assert("name"@[0] == 'n');
                assert("path"@[0] == 'p');
            }
            assert("remote"@ != "groups"@) by {
                assert("remote"@[0] == 'r');
                assert("groups"@[0] == 'g');
            }
            assert("remote"@ != "sync-c"@) by {
                assert("remote"@[0] == 'r');
                assert("sync-c"@[0] == 's');
            }
            assert("remote"@ != "sync-s"@) by {
                assert("remote"@[0] == 'r');
                assert("sync-s"@[0] == 's');
            }
            assert("revision"@ != "upstream"@) by {
                assert("revision"@[0] == 'r');
                assert("upstream"@[0] == 'u');
            }
            assert("dest-branch"@ != "clone-depth"@) by {
                assert("dest-branch"@[0] == 'd');
                assert("clone-depth"@[0] == 'c');
            }
            assert("groups"@ != "sync-c"@) by {
                assert("groups"@[0] == 'g');
                assert("sync-c"@[0] == 's');
            }
            assert("groups"@ != "sync-s"@) by {
                assert("groups"@[0] == 'g');
                assert("sync-s"@[0] == 's');
            }
            assert("sync-c"@ != "sync-s"@) by {
                assert("sync-c"@[5] == 'c');
                assert("sync-s"@[5] == 's');
            }
            assert(attrs.deep_view().take(i as int + 1).drop_last() =~= attrs.deep_view().take(
                i as int,
            ));
            assert(attrs.deep_view().take(i as int + 1).last() == attrs.deep_view()[i as int]);
            assert(attrs.deep_view()[i as int].0 == attrs@[i as int].0@);
            assert(attrs.deep_view()[i as int].1 == attrs@[i as int].1@);
        }
        let key = &attrs[i].0;
        let value = &attrs[i].1;
        if key.eq(&k_name) {
            f_name = value.clone();
        } else if key.eq(&k_path) {
            f_path = Some(value.clone());
        } else if key.eq(&k_remote) {
            f_remote = Some(value.clone());
        } else if key.eq(&k_revision) {
            f_revision = Some(value.clone());
        } else if key.eq(&k_dest_branch) {
            f_dest_branch = Some(value.clone());
        } else if key.eq(&k_groups) {
            f_groups = Some(value.clone());
        } else if key.eq(&k_sync_c) {
            f_sync_c = Some(value.clone());
        } else if key.eq(&k_sync_s) {
            f_sync_s = Some(value.clone());
        } else if key.eq(&k_sync_tags) {
            f_sync_tags = Some(value.clone());
        } else if key.eq(&k_upstream) {
            f_upstream = Some(value.clone());
        } else if key.eq(&k_clone_depth) {
            f_clone_depth = Some(value.clone());
        } else if key.eq(&k_force_path) {
            f_force_path = Some(value.clone());
        }
        i = i + 1;
    }
    proof {
        assert(attrs.deep_view().take(attrs.len() as int) =~= attrs.deep_view());
    }
    let r = Project {
        name: f_name,
        path: f_path,
        remote: f_remote,
        revision: f_revision,
        dest_branch: f_dest_branch,
        groups: f_groups,
        sync_c: f_sync_c,
        sync_s: f_sync_s,
        sync_tags: f_sync_tags,
        upstream: f_upstream,
        clone_depth: f_clone_depth,
        force_path: f_force_path,
    };
    proof {
        assert(r.deep_view() =~= spec_project_of(attrs.deep_view()));
    }
    r
}


fn parse_extend_project(attrs: &Vec<(String, String)>) -> (r: ExtendProject)
    ensures
        r.deep_view() == spec_extend_project_of(attrs.deep_view()),
{
    let k_name = "name".to_owned();
    let k_path = "path".to_owned();
    let k_dest_path = "dest-path".to_owned();
    let k_groups = "groups".to_owned();
    let k_revision = "revision".to_owned();
    let k_remote = "remote".to_owned();
    let k_dest_branch = "dest-branch".to_owned();
    let k_upstream = "upstream".to_owned();
    let k_base_rev = "base-rev".to_owned();
    let mut f_name = String::new();
    let mut f_path: Option<String> = None;
    let mut f_dest_path: Option<String> = None;
    let mut f_groups: Option<String> = None;
    let mut f_revision: Option<String> = None;
    let mut f_remote: Option<String> = None;
    let mut f_dest_branch: Option<String> = None;
    let mut f_upstream: Option<String> = None;
    let mut f_base_rev: Option<String> = None;
    let mut i: usize = 0;
    proof {
        assert(attrs.deep_view().take(0) =~= Seq::<(Seq<char>, Seq<char>)>::empty());
    }
    while i < attrs.len()
        invariant
            i <= attrs.len(),
            k_name@ == "name"@,
            k_path@ == "path"@,
            k_dest_path@ == "dest-path"@,
            k_groups@ == "groups"@,
            k_revision@ == "revision"@,
            k_remote@ == "remote"@,
            k_dest_branch@ == "dest-branch"@,
            k_upstream@ == "upstream"@,
            k_base_rev@ == "base-rev"@,
            f_name@ == attr_or_empty(attrs.deep_view().take(i as int), "name"@),
            f_path.deep_view() == attr_last(attrs.deep_view().take(i as int), "path"@),
            f_dest_path.deep_view() == attr_last(attrs.deep_view().take(i as int), "dest-path"@),
            f_groups.deep_view() == attr_last(attrs.deep_view().take(i as int), "groups"@),
            f_revision.deep_view() == attr_last(attrs.deep_view().take(i as int), "revision"@),
            f_remote.deep_view() == attr_last(attrs.deep_view().take(i as int), "remote"@),
            f_dest_branch.deep_view() == attr_last(attrs.deep_view().take(i as int), "dest-branch"@),
            f_upstream.deep_view() == attr_last(attrs.deep_view().take(i as int), "upstream"@),
            f_base_rev.deep_view() == attr_last(attrs.deep_view().take(i as int), "base-rev"@),
        decreases attrs.len() - i,
    {
        proof {
            reveal_strlit("name");
            reveal_strlit("path");
            reveal_strlit("dest-path");
            reveal_strlit("groups");
            reveal_strlit("revision");
            reveal_strlit("remote");
            reveal_strlit("dest-branch");
            reveal_strlit("upstream");
            reveal_strlit("base-rev");
            assert("name"@ != "path"@) by {
                assert("name"@[0] == 'n');
                assert("path"@[0] == 'p');
            }
            assert("groups"@ != "remote"@) by {
                assert("groups"@[0] == 'g');
                assert("remote"@[0] == 'r');
            }
            assert("revision"@ != "upstream"@) by {
                assert("revision"@[0] == 'r');
                assert("upstream"@[0] == 'u');
            }
            assert("revision"@ != "base-rev"@) by {
                assert("revision"@[0] == 'r');
                assert("base-rev"@[0] == 'b');
            }
            assert("upstream"@ != "base-rev"@) by {
                assert("upstream"@[0] == 'u');
                assert("base-rev"@[0] == 'b');
            }
            assert(attrs.deep_view().take(i as int + 1).drop_last() =~= attrs.deep_view().take(
                i as int,
            ));
            assert(attrs.deep_view().take(i as int + 1).last() == attrs.deep_view()[i as int]);
            assert(attrs.deep_view()[i as int].0 == attrs@[i as int].0@);
            assert(attrs.deep_view()[i as int].1 == attrs@[i as int].1@);
        }
        let key = &attrs[i].0;
        let value = &attrs[i].1;
        if key.eq(&k_name) {
            f_name = value.clone();
        } else if key.eq(&k_path) {
            f_path = Some(value.clone());
        } else if key.eq(&k_dest_path) {
            f_dest_path = Some(value.clone());
        } else if key.eq(&k_groups) {
            f_groups = Some(value.clone());
        } else if key.eq(&k_revision) {
            f_revision = Some(value.clone());
        } else if key.eq(&k_remote) {
            f_remote = Some(value.clone());
        } else if key.eq(&k_dest_branch) {
            f_dest_branch = Some(value.clone());
        } else if key.eq(&k_upstream) {
            f_upstream = Some(value.clone());
        } else if key.eq(&k_base_rev) {
            f_base_rev = Some(value.clone());
        }
        i = i + 1;
    }
    proof {
        assert(attrs.deep_view().take(attrs.len() as int) =~= attrs.deep_view());
    }
    let r = ExtendProject {
        name: f_name,
        path: f_path,
        dest_path: f_dest_path,
        groups: f_groups,
        revision: f_revision,
        remote: f_remote,
        dest_branch: f_dest_branch,
        upstream: f_upstream,
        base_rev: f_base_rev,
    };
    proof {
        assert(r.deep_view() =~= spec_extend_project_of(attrs.deep_view()));
    }
    r
}


fn parse_include(attrs: &Vec<(String, String)>) -> (r: Include)
    ensures
        r.deep_view() == spec_include_of(attrs.deep_view()),
{
    let k_name = "name".to_owned();
    let k_groups = "groups".to_owned();
    let k_revision = "revision".to_owned();
    let mut f_name = String::new();
    let mut f_groups: Option<String> = None;
    let mut f_revision: Option<String> = None;
    let mut i: usize = 0;
    proof {
        assert(attrs.deep_view().take(0) =~= Seq::<(Seq<char>, Seq<char>)>::empty());
    }
    while i < attrs.len()
        invariant
            i <= attrs.len(),
            k_name@ == "name"@,
            k_groups@ == "groups"@,
            k_revision@ == "revision"@,
            f_name@ == attr_or_empty(attrs.deep_view().take(i as int), "name"@),
            f_groups.deep_view() == attr_last(attrs.deep_view().take(i as int), "groups"@),
            f_revision.deep_view() == attr_last(attrs.deep_view().take(i as int), "revision"@),
        decreases attrs.len() - i,
    {
        proof {
            reveal_strlit("name");
            reveal_strlit("groups");
            reveal_strlit("revision");
            assert(attrs.deep_view().take(i as int + 1).drop_last() =~= attrs.deep_view().take(
                i as int,
            ));
            assert(attrs.deep_view().take(i as int + 1).last() == attrs.deep_view()[i as int]);
            assert(attrs.deep_view()[i as int].0 == attrs@[i as int].0@);
            assert(attrs.deep_view()[i as int].1 == attrs@[i as int].1@);
        }
        let key = &attrs[i].0;
        let value = &attrs[i].1;
        if key.eq(&k_name) {
            f_name = value.clone();
        } else if key.eq(&k_groups) {
            f_groups = Some(value.clone());
        } else if key.eq(&k_revision) {
            f_revision = Some(value.clone());
        }
        i = i + 1;
    }
    proof {
        assert(attrs.deep_view().take(attrs.len() as int) =~= attrs.deep_view());
    }
    let r = Include {
        name: f_name,
        groups: f_groups,
        revision: f_revision,
    };
    proof {
        assert(r.deep_view() =~= spec_include_of(attrs.deep_view()));
    }
    r
}


fn parse_copyfile(attrs: &Vec<(String, String)>) -> (r: CopyFile)
    ensures
        r.deep_view() == spec_copyfile_of(attrs.deep_view()),
{
    let k_src = "src".to_owned();
    let k_dest = "dest".to_owned();
    let mut f_src = String::new();
    let mut f_dest = String::new();
    let mut i: usize = 0;
    proof {
        assert(attrs.deep_view().take(0) =~= Seq::<(Seq<char>, Seq<char>)>::empty());
    }
    while i < attrs.len()
        invariant
            i <= attrs.len(),
            k_src@ == "src"@,
            k_dest@ == "dest"@,
            f_src@ == attr_or_empty(attrs.deep_view().take(i as int), "src"@),
            f_dest@ == attr_or_empty(attrs.deep_view().take(i as int), "dest"@),
        decreases attrs.len() - i,
    {
        proof {
            reveal_strlit("src");
            reveal_strlit("dest");
            assert(attrs.deep_view().take(i as int + 1).drop_last() =~= attrs.deep_view().take(
                i as int,
            ));
            assert(attrs.deep_view().take(i as int + 1).last() == attrs.deep_view()[i as int]);
            assert(attrs.deep_view()[i as int].0 == attrs@[i as int].0@);
            assert(attrs.deep_view()[i as int].1 == attrs@[i as int].1@);
        }
        let key = &attrs[i].0;
        let value = &attrs[i].1;
        if key.eq(&k_src) {
            f_src = value.clone();
        } else if key.eq(&k_dest) {
            f_dest = value.clone();
        }
        i = i + 1;
    }
    proof {
        assert(attrs.deep_view().take(attrs.len() as int) =~= attrs.deep_view());
    }
    let r = CopyFile {
        src: f_src,
        dest: f_dest,
    };
    proof {
        assert(r.deep_view() =~= spec_copyfile_of(attrs.deep_view()));
    }
    r
}


fn parse_linkfile(attrs: &Vec<(String, String)>) -> (r: LinkFile)
    ensures
        r.deep_view() == spec_linkfile_of(attrs.deep_view()),
{
    let k_src = "src".to_owned();
    let k_dest = "dest".to_owned();
    let mut f_src = String::new();
    let mut f_dest = String::new();
    let mut i: usize = 0;
    proof {
        assert(attrs.deep_view().take(0) =~= Seq::<(Seq<char>, Seq<char>)>::empty());
    }
    while i < attrs.len()
        invariant
            i <= attrs.len(),
            k_src@ == "src"@,
            k_dest@ == "dest"@,
            f_src@ == attr_or_empty(attrs.deep_view().take(i as int), "src"@),
            f_dest@ == attr_or_empty(attrs.deep_view().take(i as int), "dest"@),
        decreases attrs.len() - i,
    {
        proof {
            reveal_strlit("src");
            reveal_strlit("dest");
            assert(attrs.deep_view().take(i as int + 1).drop_last() =~= attrs.deep_view().take(
                i as int,
            ));
            assert(attrs.deep_view().take(i as int + 1).last() == attrs.deep_view()[i as int]);
            assert(attrs.deep_view()[i as int].0 == attrs@[i as int].0@);
            assert(attrs.deep_view()[i as int].1 == attrs@[i as int].1@);
        }
        let key = &attrs[i].0;
        let value = &attrs[i].1;
        if key.eq(&k_src) {
            f_src = value.clone();
        } else if key.eq(&k_dest) {
            f_dest = value.clone();
        }
        i = i + 1;
    }
    proof {
        assert(attrs.deep_view().take(attrs.len() as int) =~= attrs.deep_view());
    }
    let r = LinkFile {
        src: f_src,
        dest: f_dest,
    };
    proof {
        assert(r.deep_view() =~= spec_linkfile_of(attrs.deep_view()));
    }
    r
}


fn parse_annotation(attrs: &Vec<(String, String)>) -> (r: Annotation)
    ensures
        r.deep_view() == spec_annotation_of(attrs.deep_view()),
{
    let k_name = "name".to_owned();
    let k_value = "value".to_owned();
    let k_keep = "keep".to_owned();
    let mut f_name = String::new();
    let mut f_value = String::new();
    let mut f_keep: bool = true;
    let mut i: usize = 0;
    proof {
        assert(attrs.deep_view().take(0) =~= Seq::<(Seq<char>, Seq<char>)>::empty());
    }
    while i < attrs.len()
        invariant
            i <= attrs.len(),
            k_name@ == "name"@,
            k_value@ == "value"@,
            k_keep@ == "keep"@,
            f_name@ == attr_or_empty(attrs.deep_view().take(i as int), "name"@),
            f_value@ == attr_or_empty(attrs.deep_view().take(i as int), "value"@),
            f_keep == (match attr_last(attrs.deep_view().take(i as int), "keep"@) {
                Some(v) => spec_is_true_ci(v),
                None => true,
            }),
        decreases attrs.len() - i,
    {
        proof {
            reveal_strlit("name");
            reveal_strlit("value");
            reveal_strlit("keep");
            assert("name"@ != "keep"@) by {
                assert("name"@[0] == 'n');
                assert("keep"@[0] == 'k');
            }
            assert(attrs.deep_view().take(i as int + 1).drop_last() =~= attrs.deep_view().take(
                i as int,
            ));
            assert(attrs.deep_view().take(i as int + 1).last() == attrs.deep_view()[i as int]);
            assert(attrs.deep_view()[i as int].0 == attrs@[i as int].0@);
            assert(attrs.deep_view()[i as int].1 == attrs@[i as int].1@);
        }
        let key = &attrs[i].0;
        let value = &attrs[i].1;
        if key.eq(&k_name) {
            f_name = value.clone();
        } else if key.eq(&k_value) {
            f_value = value.clone();
        } else if key.eq(&k_keep) {
            f_keep = is_true_ci(value);
        }
        i = i + 1;
    }
    proof {
        assert(attrs.deep_view().take(attrs.len() as int) =~= attrs.deep_view());
    }
    let r = Annotation {
        name: f_name,
        value: f_value,
        keep: f_keep,
    };
    proof {
        assert(r.deep_view() =~= spec_annotation_of(attrs.deep_view()));
    }
    r
}


fn parse_default(attrs: &Vec<(String, String)>) -> (r: crate::model::Default)
    ensures
        r.deep_view() == spec_default_of(attrs.deep_view()),
{
    let k_remote = "remote".to_owned();
    let k_revision = "revision".to_owned();
    let k_dest_branch = "dest-branch".to_owned();
    let k_upstream = "upstream".to_owned();
    let k_sync_j = "sync-j".to_owned();
    let k_sync_c = "sync-c".to_owned();
    let k_sync_s = "sync-s".to_owned();
    let k_sync_tags = "sync-tags".to_owned();
    let mut f_remote: Option<String> = None;
    let mut f_revision: Option<String> = None;
    let mut f_dest_branch: Option<String> = None;
    let mut f_upstream: Option<String> = None;
    let mut f_sync_j: Option<String> = None;
    let mut f_sync_c: Option<String> = None;
    let mut f_sync_s: Option<String> = None;
    let mut f_sync_tags: Option<String> = None;
    let mut i: usize = 0;
    proof {
        assert(attrs.deep_view().take(0) =~= Seq::<(Seq<char>, Seq<char>)>::empty());
    }
    while i < attrs.len()
        invariant
            i <= attrs.len(),
            k_remote@ == "remote"@,
            k_revision@ == "revision"@,
            k_dest_branch@ == "dest-branch"@,
            k_upstream@ == "upstream"@,
            k_sync_j@ == "sync-j"@,
            k_sync_c@ == "sync-c"@,
            k_sync_s@ == "sync-s"@,
            k_sync_tags@ == "sync-tags"@,
            f_remote.deep_view() == attr_last(attrs.deep_view().take(i as int), "remote"@),
            f_revision.deep_view() == attr_last(attrs.deep_view().take(i as int), "revision"@),
            f_dest_branch.deep_view() == attr_last(attrs.deep_view().take(i as int), "dest-branch"@),
            f_upstream.deep_view() == attr_last(attrs.deep_view().take(i as int), "upstream"@),
            f_sync_j.deep_view() == attr_last(attrs.deep_view().take(i as int), "sync-j"@),
            f_sync_c.deep_view() == attr_last(attrs.deep_view().take(i as int), "sync-c"@),
            f_sync_s.deep_view() == attr_last(attrs.deep_view().take(i as int), "sync-s"@),
            f_sync_tags.deep_view() == attr_last(attrs.deep_view().take(i as int), "sync-tags"@),
        decreases attrs.len() - i,
    {
        proof {
            reveal_strlit("remote");
            reveal_strlit("revision");
            reveal_strlit("dest-branch");
            reveal_strlit("upstream");
            reveal_strlit("sync-j");
            reveal_strlit("sync-c");
            reveal_strlit("sync-s");
            reveal_strlit("sync-tags");
            assert("remote"@ != "sync-j"@) by {
                assert("remote"@[0] == 'r');
                assert("sync-j"@[0] == 's');
            }
            assert("remote"@ != "sync-c"@) by {
                assert("remote"@[0] == 'r');
                assert("sync-c"@[0] == 's');
            }
            assert("remote"@ != "sync-s"@) by {
                assert("remote"@[0] == 'r');
                assert("sync-s"@[0] == 's');
            }
            assert("revision"@ != "upstream"@) by {
                assert("revision"@[0] == 'r');
                assert("upstream"@[0] == 'u');
            }
            assert("sync-j"@ != "sync-c"@) by {
                assert("sync-j"@[5] == 'j');
                assert("sync-c"@[5] == 'c');
            }
            assert("sync-j"@ != "sync-s"@) by {
                assert("sync-j"@[5] == 'j');
                assert("sync-s"@[5] == 's');
            }
            assert("sync-c"@ != "sync-s"@) by {
                assert("sync-c"@[5] == 'c');
                assert("sync-s"@[5] == 's');
            }
            assert(attrs.deep_view().take(i as int + 1).drop_last() =~= attrs.deep_view().take(
                i as int,
            ));
            assert(attrs.deep_view().take(i as int + 1).last() == attrs.deep_view()[i as int]);
            assert(attrs.deep_view()[i as int].0 == attrs@[i as int].0@);
            assert(attrs.deep_view()[i as int].1 == attrs@[i as int].1@);
        }
        let key = &attrs[i].0;
        let value = &attrs[i].1;
        if key.eq(&k_remote) {
            f_remote = Some(value.clone());
        } else if key.eq(&k_revision) {
            f_revision = Some(value.clone());
        } else if key.eq(&k_dest_branch) {
            f_dest_branch = Some(value.clone());
        } else if key.eq(&k_upstream) {
            f_upstream = Some(value.clone());
        } else if key.eq(&k_sync_j) {
            f_sync_j = Some(value.clone());
        } else if key.eq(&k_sync_c) {
            f_sync_c = Some(value.clone());
        } else if key.eq(&k_sync_s) {
            f_sync_s = Some(value.clone());
        } else if key.eq(&k_sync_tags) {
            f_sync_tags = Some(value.clone());
        }
        i = i + 1;
    }
    proof {
        assert(attrs.deep_view().take(attrs.len() as int) =~= attrs.deep_view());
    }
    let r = crate::model::Default {
        remote: f_remote,
        revision: f_revision,
        dest_branch: f_dest_branch,
        upstream: f_upstream,
        sync_j: f_sync_j,
        sync_c: f_sync_c,
        sync_s: f_sync_s,
        sync_tags: f_sync_tags,
    };
    proof {
        assert(r.deep_view() =~= spec_default_of(attrs.deep_view()));
    }
    r
}


fn parse_repo_hooks(attrs: &Vec<(String, String)>) -> (r: RepoHooks)
    ensures
        r.deep_view() == spec_repo_hooks_of(attrs.deep_view()),
{
    let k_in_project = "in-project".to_owned();
    let k_enabled_list = "enabled-list".to_owned();
    let mut f_in_project = String::new();
    let mut f_enabled_list = String::new();
    let mut i: usize = 0;
    proof {
        assert(attrs.deep_view().take(0) =~= Seq::<(Seq<char>, Seq<char>)>::empty());
    }
    while i < attrs.len()
        invariant
            i <= attrs.len(),
            k_in_project@ == "in-project"@,
            k_enabled_list@ == "enabled-list"@,
            f_in_project@ == attr_or_empty(attrs.deep_view().take(i as int), "in-project"@),
            f_enabled_list@ == attr_or_empty(attrs.deep_view().take(i as int), "enabled-list"@),
        decreases attrs.len() - i,
    {
        proof {
            reveal_strlit("in-project");
            reveal_strlit("enabled-list");
            assert(attrs.deep_view().take(i as int + 1).drop_last() =~= attrs.deep_view().take(
                i as int,
            ));
            assert(attrs.deep_view().take(i as int + 1).last() == attrs.deep_view()[i as int]);
            assert(attrs.deep_view()[i as int].0 == attrs@[i as int].0@);
            assert(attrs.deep_view()[i as int].1 == attrs@[i as int].1@);
        }
        let key = &attrs[i].0;
        let value = &attrs[i].1;
        if key.eq(&k_in_project) {
            f_in_project = value.clone();
        } else if key.eq(&k_enabled_list) {
            f_enabled_list = value.clone();
        }
        i = i + 1;
    }
    proof {
        assert(attrs.deep_view().take(attrs.len() as int) =~= attrs.deep_view());
    }
    let r = RepoHooks {
        in_project: f_in_project,
        enabled_list: f_enabled_list,
    };
    proof {
        assert(r.deep_view() =~= spec_repo_hooks_of(attrs.deep_view()));
    }
    r
}


fn parse_superproject(attrs: &Vec<(String, String)>) -> (r: Superproject)
    ensures
        r.deep_view() == spec_superproject_of(attrs.deep_view()),
{
    let k_name = "name".to_owned();
    let k_remote = "remote".to_owned();
    let k_revision = "revision".to_owned();
    let mut f_name = String::new();
    let mut f_remote: Option<String> = None;
    let mut f_revision: Option<String> = None;
    let mut i: usize = 0;
    proof {
        assert(attrs.deep_view().take(0) =~= Seq::<(Seq<char>, Seq<char>)>::empty());
    }
    while i < attrs.len()
        invariant
            i <= attrs.len(),
            k_name@ == "name"@,
            k_remote@ == "remote"@,
            k_revision@ == "revision"@,
            f_name@ == attr_or_empty(attrs.deep_view().take(i as int), "name"@),
            f_remote.deep_view() == attr_last(attrs.deep_view().take(i as int), "remote"@),
            f_revision.deep_view() == attr_last(attrs.deep_view().take(i as int), "revision"@),
        decreases attrs.len() - i,
    {
        proof {
            reveal_strlit("name");
            reveal_strlit("remote");
            reveal_strlit("revision");
            assert(attrs.deep_view().take(i as int + 1).drop_last() =~= attrs.deep_view().take(
                i as int,
            ));
            assert(attrs.deep_view().take(i as int + 1).last() == attrs.deep_view()[i as int]);
            assert(attrs.deep_view()[i as int].0 == attrs@[i as int].0@);
            assert(attrs.deep_view()[i as int].1 == attrs@[i as int].1@);
        }
        let key = &attrs[i].0;
        let value = &attrs[i].1;
        if key.eq(&k_name) {
            f_name = value.clone();
        } else if key.eq(&k_remote) {
            f_remote = Some(value.clone());
        } else if key.eq(&k_revision) {
            f_revision = Some(value.clone());
        }
        i = i + 1;
    }
    proof {
        assert(attrs.deep_view().take(attrs.len() as int) =~= attrs.deep_view());
    }
    let r = Superproject {
        name: f_name,
        remote: f_remote,
        revision: f_revision,
    };
    proof {
        assert(r.deep_view() =~= spec_superproject_of(attrs.deep_view()));
    }
    r
}


fn elem_remote(m: &mut Manifest, attrs: &Option<Vec<(String, String)>>) -> (r: Result<
    (),
    LoadError,
>)
    ensures
        match r {
            Ok(()) => spec_elem_remote(old(m).deep_view(), attrs.deep_view()) == Ok::<
                ManifestV,
                LoadError,
            >(final(m).deep_view()),
            Err(e) => spec_elem_remote(old(m).deep_view(), attrs.deep_view()) == Err::<
                ManifestV,
                LoadError,
            >(e),
        },
{
    match attrs {
        None => Err(LoadError::Parse),
        Some(a) => {
            let e = parse_remote(a);
            if e.name.as_str().is_empty() || e.fetch.as_str().is_empty() {
                return Err(LoadError::Schema);
            }
            let ghost ev = e.deep_view();
            let ghost pre = m.remotes;
            m.remotes.push(e);
            proof {
                lemma_deep_view_push(pre, m.remotes, ev);
                assert(m.deep_view() =~= (ManifestV {
                    remotes: old(m).deep_view().remotes.push(ev),
                    ..old(m).deep_view()
                }));
            }
            Ok(())
        },
    }
}

fn elem_submanifest(m: &mut Manifest, attrs: &Option<Vec<(String, String)>>) -> (r: Result<
    (),
    LoadError,
>)
    ensures
        match r {
            Ok(()) => spec_elem_submanifest(old(m).deep_view(), attrs.deep_view()) == Ok::<
                ManifestV,
                LoadError,
            >(final(m).deep_view()),
            Err(e) => spec_elem_submanifest(old(m).deep_view(), attrs.deep_view()) == Err::<
                ManifestV,
                LoadError,
            >(e),
        },
{
    match attrs {
        None => Err(LoadError::Parse),
        Some(a) => {
            let e = parse_submanifest(a);
            let ghost ev = e.deep_view();
            let ghost pre = m.submanifests;
            m.submanifests.push(e);
            proof {
                lemma_deep_view_push(pre, m.submanifests, ev);
                assert(m.deep_view() =~= (ManifestV {
                    submanifests: old(m).deep_view().submanifests.push(ev),
                    ..old(m).deep_view()
                }));
            }
            Ok(())
        },
    }
}

fn elem_remove_project(m: &mut Manifest, attrs: &Option<Vec<(String, String)>>) -> (r: Result<
    (),
    LoadError,
>)
    ensures
        match r {
            Ok(()) => spec_elem_remove_project(old(m).deep_view(), attrs.deep_view()) == Ok::<
                ManifestV,
                LoadError,
            >(final(m).deep_view()),
            Err(e) => spec_elem_remove_project(old(m).deep_view(), attrs.deep_view()) == Err::<
                ManifestV,
                LoadError,
            >(e),
        },
{
    match attrs {
        None => Err(LoadError::Parse),
        Some(a) => {
            let e = parse_remove_project(a);
            let ghost ev = e.deep_view();
            let ghost pre = m.remove_projects;
            m.remove_projects.push(e);
            proof {
                lemma_deep_view_push(pre, m.remove_projects, ev);
                assert(m.deep_view() =~= (ManifestV {
                    remove_projects: old(m).deep_view().remove_projects.push(ev),
                    ..old(m).deep_view()
                }));
            }
            Ok(())
        },
    }
}

fn elem_project(m: &mut Manifest, attrs: &Option<Vec<(String, String)>>) -> (r: Result<
    (),
    LoadError,
>)
    ensures
        match r {
            Ok(()) => spec_elem_project(old(m).deep_view(), attrs.deep_view()) == Ok::<
                ManifestV,
                LoadError,
            >(final(m).deep_view()),
            Err(e) => spec_elem_project(old(m).deep_view(), attrs.deep_view()) == Err::<
                ManifestV,
                LoadError,
            >(e),
        },
{
    match attrs {
        None => Err(LoadError::Parse),
        Some(a) => {
            let e = parse_project(a);
            if e.name.as_str().is_empty() {
                return Err(LoadError::Schema);
            }
            let ghost ev = e.deep_view();
            let ghost pre = m.projects;
            m.projects.push(e);
            proof {
                lemma_deep_view_push(pre, m.projects, ev);
                assert(m.deep_view() =~= (ManifestV {
                    projects: old(m).deep_view().projects.push(ev),
                    ..old(m).deep_view()
                }));
            }
            Ok(())
        },
    }
}

fn elem_extend_project(m: &mut Manifest, attrs: &Option<Vec<(String, String)>>) -> (r: Result<
    (),
    LoadError,
>)
    ensures
        match r {
            Ok(()) => spec_elem_extend_project(old(m).deep_view(), attrs.deep_view()) == Ok::<
                ManifestV,
                LoadError,
            >(final(m).deep_view()),
            Err(e) => spec_elem_extend_project(old(m).deep_view(), attrs.deep_view()) == Err::<
                ManifestV,
                LoadError,
            >(e),
        },
{
    match attrs {
        None => Err(LoadError::Parse),
        Some(a) => {
            let e = parse_extend_project(a);
            let ghost ev = e.deep_view();
            let ghost pre = m.extend_projects;
            m.extend_projects.push(e);
            proof {
                lemma_deep_view_push(pre, m.extend_projects, ev);
                assert(m.deep_view() =~= (ManifestV {
                    extend_projects: old(m).deep_view().extend_projects.push(ev),
                    ..old(m).deep_view()
                }));
            }
            Ok(())
        },
    }
}

fn elem_include(m: &mut Manifest, attrs: &Option<Vec<(String, String)>>) -> (r: Result<
    (),
    LoadError,
>)
    ensures
        match r {
            Ok(()) => spec_elem_include(old(m).deep_view(), attrs.deep_view()) == Ok::<
                ManifestV,
                LoadError,
            >(final(m).deep_view()),
            Err(e) => spec_elem_include(old(m).deep_view(), attrs.deep_view()) == Err::<
                ManifestV,
                LoadError,
            >(e),
        },
{
    match attrs {
        None => Err(LoadError::Parse),
        Some(a) => {
            let e = parse_include(a);
            let ghost ev = e.deep_view();
            let ghost pre = m.includes;
            m.includes.push(e);
            proof {
                lemma_deep_view_push(pre, m.includes, ev);
                assert(m.deep_view() =~= (ManifestV {
                    includes: old(m).deep_view().includes.push(ev),
                    ..old(m).deep_view()
                }));
            }
            Ok(())
        },
    }
}

fn elem_copyfile(m: &mut Manifest, attrs: &Option<Vec<(String, String)>>) -> (r: Result<
    (),
    LoadError,
>)
    ensures
        match r {
            Ok(()) => spec_elem_copyfile(old(m).deep_view(), attrs.deep_view()) == Ok::<
                ManifestV,
                LoadError,
            >(final(m).deep_view()),
            Err(e) => spec_elem_copyfile(old(m).deep_view(), attrs.deep_view()) == Err::<
                ManifestV,
                LoadError,
            >(e),
        },
{
    match attrs {
        None => Err(LoadError::Parse),
        Some(a) => {
            let e = parse_copyfile(a);
            let ghost ev = e.deep_view();
            let ghost pre = m.copyfiles;
            m.copyfiles.push(e);
            proof {
                lemma_deep_view_push(pre, m.copyfiles, ev);
                assert(m.deep_view() =~= (ManifestV {
                    copyfiles: old(m).deep_view().copyfiles.push(ev),
                    ..old(m).deep_view()
                }));
            }
            Ok(())
        },
    }
}

fn elem_linkfile(m: &mut Manifest, attrs: &Option<Vec<(String, String)>>) -> (r: Result<
    (),
    LoadError,
>)
    ensures
        match r {
            Ok(()) => spec_elem_linkfile(old(m).deep_view(), attrs.deep_view()) == Ok::<
                ManifestV,
                LoadError,
            >(final(m).deep_view()),
            Err(e) => spec_elem_linkfile(old(m).deep_view(), attrs.deep_view()) == Err::<
                ManifestV,
                LoadError,
            >(e),
        },
{
    match attrs {
        None => Err(LoadError::Parse),
        Some(a) => {
            let e = parse_linkfile(a);
            let ghost ev = e.deep_view();
            let ghost pre = m.linkfiles;
            m.linkfiles.push(e);
            proof {
                lemma_deep_view_push(pre, m.linkfiles, ev);
                assert(m.deep_view() =~= (ManifestV {
                    linkfiles: old(m).deep_view().linkfiles.push(ev),
                    ..old(m).deep_view()
                }));
            }
            Ok(())
        },
    }
}

fn elem_annotation(m: &mut Manifest, attrs: &Option<Vec<(String, String)>>) -> (r: Result<
    (),
    LoadError,
>)
    ensures
        match r {
            Ok(()) => spec_elem_annotation(old(m).deep_view(), attrs.deep_view()) == Ok::<
                ManifestV,
                LoadError,
            >(final(m).deep_view()),
            Err(e) => spec_elem_annotation(old(m).deep_view(), attrs.deep_view()) == Err::<
                ManifestV,
                LoadError,
            >(e),
        },
{
    match attrs {
        None => Err(LoadError::Parse),
        Some(a) => {
            let e = parse_annotation(a);
            let ghost ev = e.deep_view();
            let ghost pre = m.annotations;
            m.annotations.push(e);
            proof {
                lemma_deep_view_push(pre, m.annotations, ev);
                assert(m.deep_view() =~= (ManifestV {
                    annotations: old(m).deep_view().annotations.push(ev),
                    ..old(m).deep_view()
                }));
            }
            Ok(())
        },
    }
}

fn elem_default(m: &mut Manifest, attrs: &Option<Vec<(String, String)>>) -> (r: Result<
    (),
    LoadError,
>)
    ensures
        match r {
            Ok(()) => spec_elem_default(old(m).deep_view(), attrs.deep_view()) == Ok::<
                ManifestV,
                LoadError,
            >(final(m).deep_view()),
            Err(e) => spec_elem_default(old(m).deep_view(), attrs.deep_view()) == Err::<
                ManifestV,
                LoadError,
            >(e),
        },
{
    match attrs {
        None => Err(LoadError::Parse),
        Some(a) => {
            let e = parse_default(a);
            m.default = Some(e);
            proof {
                assert(m.deep_view() =~= (ManifestV {
                    default: Some(spec_default_of(a.deep_view())),
                    ..old(m).deep_view()
                }));
            }
            Ok(())
        },
    }
}

fn elem_repo_hooks(m: &mut Manifest, attrs: &Option<Vec<(String, String)>>) -> (r: Result<
    (),
    LoadError,
>)
    ensures
        match r {
            Ok(()) => spec_elem_repo_hooks(old(m).deep_view(), attrs.deep_view()) == Ok::<
                ManifestV,
                LoadError,
            >(final(m).deep_view()),
            Err(e) => spec_elem_repo_hooks(old(m).deep_view(), attrs.deep_view()) == Err::<
                ManifestV,
                LoadError,
            >(e),
        },
{
    match attrs {
        None => Err(LoadError::Parse),
        Some(a) => {
            let e = parse_repo_hooks(a);
            m.repo_hooks = Some(e);
            proof {
                assert(m.deep_view() =~= (ManifestV {
                    repo_hooks: Some(spec_repo_hooks_of(a.deep_view())),
                    ..old(m).deep_view()
                }));
            }
            Ok(())
        },
    }
}

fn elem_superproject(m: &mut Manifest, attrs: &Option<Vec<(String, String)>>) -> (r: Result<
    (),
    LoadError,
>)
    ensures
        match r {
            Ok(()) => spec_elem_superproject(old(m).deep_view(), attrs.deep_view()) == Ok::<
                ManifestV,
                LoadError,
            >(final(m).deep_view()),
            Err(e) => spec_elem_superproject(old(m).deep_view(), attrs.deep_view()) == Err::<
                ManifestV,
                LoadError,
            >(e),
        },
{
    match attrs {
        None => Err(LoadError::Parse),
        Some(a) => {
            let e = parse_superproject(a);
            m.superproject = Some(e);
            proof {
                assert(m.deep_view() =~= (ManifestV {
                    superproject: Some(spec_superproject_of(a.deep_view())),
                    ..old(m).deep_view()
                }));
            }
            Ok(())
        },
    }
}

fn elem_manifest_server(m: &mut Manifest, attrs: &Option<Vec<(String, String)>>) -> (r: Result<
    (),
    LoadError,
>)
    ensures
        match r {
            Ok(()) => spec_elem_manifest_server(old(m).deep_view(), attrs.deep_view()) == Ok::<
                ManifestV,
                LoadError,
            >(final(m).deep_view()),
            Err(e) => spec_elem_manifest_server(old(m).deep_view(), attrs.deep_view()) == Err::<
                ManifestV,
                LoadError,
            >(e),
        },
{
    match attrs {
        None => Err(LoadError::Parse),
        Some(a) => {
            let k = "url".to_owned();
            match attr_find_first(a, &k) {
                Some(u) => {
                    m.manifest_server = Some(ManifestServer { url: u });
                    proof {
                        assert(m.deep_view() =~= (ManifestV {
                            manifest_server: m.deep_view().manifest_server,
                            ..old(m).deep_view()
                        }));
                    }
                },
                None => {},
            }
            Ok(())
        },
    }
}

fn elem_contactinfo(m: &mut Manifest, attrs: &Option<Vec<(String, String)>>) -> (r: Result<
    (),
    LoadError,
>)
    ensures
        match r {
            Ok(()) => spec_elem_contactinfo(old(m).deep_view(), attrs.deep_view()) == Ok::<
                ManifestV,
                LoadError,
            >(final(m).deep_view()),
            Err(e) => spec_elem_contactinfo(old(m).deep_view(), attrs.deep_view()) == Err::<
                ManifestV,
                LoadError,
            >(e),
        },
{
    match attrs {
        None => Err(LoadError::Parse),
        Some(a) => {
            let k = "bugurl".to_owned();
            match attr_find_first(a, &k) {
                Some(u) => {
                    m.contactinfo = Some(ContactInfo { bugurl: u });
                    proof {
                        assert(m.deep_view() =~= (ManifestV {
                            contactinfo: m.deep_view().contactinfo,
                            ..old(m).deep_view()
                        }));
                    }
                },
                None => {},
            }
            Ok(())
        },
    }
}
// ---------------------------------------------------------------------------
// The document walk.
// ---------------------------------------------------------------------------

fn apply_element(m: &mut Manifest, name: &String, attrs: &Option<Vec<(String, String)>>) -> (r:
    Result<(), LoadError>)
    ensures
        match r {
            Ok(()) => spec_apply_elem(old(m).deep_view(), name@, attrs.deep_view()) == Ok::<
                ManifestV,
                LoadError,
            >(final(m).deep_view()),
            Err(e) => spec_apply_elem(old(m).deep_view(), name@, attrs.deep_view()) == Err::<
                ManifestV,
                LoadError,
            >(e),
        },
{
    let k_remote = "remote".to_owned();
    let k_default = "default".to_owned();
    let k_manifest_server = "manifest-server".to_owned();
    let k_submanifest = "submanifest".to_owned();
    let k_remove_project = "remove-project".to_owned();
    let k_project = "project".to_owned();
    let k_extend_project = "extend-project".to_owned();
    let k_repo_hooks = "repo-hooks".to_owned();
    let k_superproject = "superproject".to_owned();
    let k_contactinfo = "contactinfo".to_owned();
    let k_include = "include".to_owned();
    let k_copyfile = "copyfile".to_owned();
    let k_linkfile = "linkfile".to_owned();
    let k_annotation = "annotation".to_owned();
    if name.eq(&k_remote) {
        elem_remote(m, attrs)
    } else if name.eq(&k_default) {
        elem_default(m, attrs)
    } else if name.eq(&k_manifest_server) {
        elem_manifest_server(m, attrs)
    } else if name.eq(&k_submanifest) {
        elem_submanifest(m, attrs)
    } else if name.eq(&k_remove_project) {
        elem_remove_project(m, attrs)
    } else if name.eq(&k_project) {
        elem_project(m, attrs)
    } else if name.eq(&k_extend_project) {
        elem_extend_project(m, attrs)
    } else if name.eq(&k_repo_hooks) {
        elem_repo_hooks(m, attrs)
    } else if name.eq(&k_superproject) {
        elem_superproject(m, attrs)
    } else if name.eq(&k_contactinfo) {
        elem_contactinfo(m, attrs)
    } else if name.eq(&k_include) {
        elem_include(m, attrs)
    } else if name.eq(&k_copyfile) {
        elem_copyfile(m, attrs)
    } else if name.eq(&k_linkfile) {
        elem_linkfile(m, attrs)
    } else if name.eq(&k_annotation) {
        elem_annotation(m, attrs)
    } else {
        Ok(())
    }
}

/// Loads one manifest document from its bytes: the XML scan is interpreted
/// element by element exactly as [`spec_parse_document`] states, recovering
/// every attribute of every recognized element verbatim, in document order.
/// Include directives are recorded, not resolved; the caller follows them
/// with [`absorb_included`].
pub fn parse_manifest_document(input: &[u8]) -> (r: Result<Manifest, LoadError>)
    ensures
        spec_parse_document(input@) == (match r {
            Ok(m) => Ok::<ManifestV, LoadError>(m.deep_view()),
            Err(e) => Err::<ManifestV, LoadError>(e),
        }),
{
    let events = match read_xml_events(input) {
        Some(es) => es,
        None => {
            return Err(LoadError::Parse);
        },
    };
    let mut m = Manifest::new();
    let mut i: usize = 0;
    let k_notice = "notice".to_owned();
    let n = events.len();
    while i < n
        invariant
            i <= n,
            n == events@.len(),
            k_notice@ == "notice"@,
            xml_events_of(input@) == Some(events.deep_view()),
            spec_parse_from(events.deep_view(), 0, empty_manifest_view()) == spec_parse_from(
                events.deep_view(),
                i as int,
                m.deep_view(),
            ),
        decreases n - i,
    {
        proof {
            assert(events.deep_view()[i as int] == events@[i as int].deep_view());
        }
        match &events[i] {
            XmlEvent::Elem { name, attrs } => {
                if name.eq(&k_notice) {
                    if i + 1 < n {
                        proof {
                            assert(events.deep_view()[i as int + 1] == events@[i as int
                                + 1].deep_view());
                        }
                        let next_is_text = matches!(&events[i + 1], XmlEvent::Text { .. });
                        if next_is_text {
                            match &events[i + 1] {
                                XmlEvent::Text { content: Some(t) } => {
                                    m.notice = Some(t.clone());
                                },
                                XmlEvent::Text { content: None } => {
                                    return Err(LoadError::Parse);
                                },
                                _ => {},
                            }
                        }
                        i = i + 2;
                    } else {
                        i = i + 1;
                    }
                } else {
                    match apply_element(&mut m, name, attrs) {
                        Ok(()) => {
                            i = i + 1;
                        },
                        Err(e) => {
                            return Err(e);
                        },
                    }
                }
            },
            _ => {
                i = i + 1;
            },
        }
    }
    Ok(m)
}

// ---------------------------------------------------------------------------
// Includes and the fallback default.
// ---------------------------------------------------------------------------

/// What absorbing an included document does: every list of the child is
/// appended after the parent's, and every single-valued element of the child
/// (notice included) replaces the parent's when present — as if the child's
/// elements had been scanned after the parent's own.
pub open spec fn spec_absorb(parent: ManifestV, child: ManifestV) -> ManifestV {
    ManifestV {
        notice: if child.notice is Some {
            child.notice
        } else {
            parent.notice
        },
        remotes: parent.remotes + child.remotes,
        default: if child.default is Some {
            child.default
        } else {
            parent.default
        },
        manifest_server: if child.manifest_server is Some {
            child.manifest_server
        } else {
            parent.manifest_server
        },
        submanifests: parent.submanifests + child.submanifests,
        remove_projects: parent.remove_projects + child.remove_projects,
        projects: parent.projects + child.projects,
        extend_projects: parent.extend_projects + child.extend_projects,
        repo_hooks: if child.repo_hooks is Some {
            child.repo_hooks
        } else {
            parent.repo_hooks
        },
        superproject: if child.superproject is Some {
            child.superproject
        } else {
            parent.superproject
        },
        contactinfo: if child.contactinfo is Some {
            child.contactinfo
        } else {
            parent.contactinfo
        },
        includes: parent.includes + child.includes,
        copyfiles: parent.copyfiles + child.copyfiles,
        linkfiles: parent.linkfiles + child.linkfiles,
        annotations: parent.annotations + child.annotations,
    }
}

/// Splices a loaded include into the including manifest, by simple sequence
/// concatenation — not the overlay merge algebra, which is reserved for
/// local manifests.
pub fn absorb_included(parent: &mut Manifest, child: Manifest)
    ensures
        final(parent).deep_view() == spec_absorb(old(parent).deep_view(), child.deep_view()),
{
    let Manifest {
        notice,
        remotes,
        default,
        manifest_server,
        submanifests,
        remove_projects,
        projects,
        extend_projects,
        repo_hooks,
        superproject,
        contactinfo,
        includes,
        copyfiles,
        linkfiles,
        annotations,
    } = child;
    if notice.is_some() {
        parent.notice = notice;
    }
    crate::merge::append_remotes(&mut parent.remotes, &remotes);
    match default {
        Some(d) => {
            parent.default = Some(d);
        },
        None => {},
    }
    match manifest_server {
        Some(v) => {
            parent.manifest_server = Some(v);
        },
        None => {},
    }
    crate::merge::append_submanifests(&mut parent.submanifests, &submanifests);
    crate::merge::append_remove_projects(&mut parent.remove_projects, &remove_projects);
    crate::merge::append_projects(&mut parent.projects, &projects);
    crate::merge::append_extend_projects(&mut parent.extend_projects, &extend_projects);
    match repo_hooks {
        Some(v) => {
            parent.repo_hooks = Some(v);
        },
        None => {},
    }
    match superproject {
        Some(v) => {
            parent.superproject = Some(v);
        },
        None => {},
    }
    match contactinfo {
        Some(v) => {
            parent.contactinfo = Some(v);
        },
        None => {},
    }
    crate::merge::append_includes(&mut parent.includes, &includes);
    crate::merge::append_copyfiles(&mut parent.copyfiles, &copyfiles);
    crate::merge::append_linkfiles(&mut parent.linkfiles, &linkfiles);
    crate::merge::append_annotations(&mut parent.annotations, &annotations);
}

/// Absorbing an included document that defines exactly one project grows
/// the project list by exactly that one project, at its end.
pub proof fn lemma_include_adds_one_project(parent: ManifestV, child: ManifestV)
    requires
        child.projects.len() == 1,
    ensures
        spec_absorb(parent, child).projects.len() == parent.projects.len() + 1,
        spec_absorb(parent, child).projects.last() == child.projects[0],
{
}

/// Fills in the fallback default element when the document supplied none:
/// the caller's remote and revision, nothing else set.
pub fn synthesize_default(
    m: &mut Manifest,
    default_remote: Option<&str>,
    default_revision: Option<&str>,
)
    ensures
        final(m).deep_view().default == (if old(m).deep_view().default is Some {
            old(m).deep_view().default
        } else {
            Some(
                DefaultV {
                    remote: match default_remote {
                        Some(r) => Some(r@),
                        None => None,
                    },
                    revision: match default_revision {
                        Some(r) => Some(r@),
                        None => None,
                    },
                    dest_branch: None,
                    upstream: None,
                    sync_j: None,
                    sync_c: None,
                    sync_s: None,
                    sync_tags: None,
                },
            )
        }),
        (ManifestV { default: None, ..final(m).deep_view() }) == (ManifestV {
            default: None,
            ..old(m).deep_view()
        }),
{
    if m.default.is_none() {
        m.default = Some(
            crate::model::Default {
                remote: match default_remote {
                    Some(r) => Some(r.to_owned()),
                    None => None,
                },
                revision: match default_revision {
                    Some(r) => Some(r.to_owned()),
                    None => None,
                },
                dest_branch: None,
                upstream: None,
                sync_j: None,
                sync_c: None,
                sync_s: None,
                sync_tags: None,
            },
        );
    }
}

/// Whether the include target is already on the chain of files being
/// loaded: following it would recurse forever, so the caller must stop with
/// an include-cycle error instead.
pub fn detect_include_cycle(loading: &Vec<String>, path: &String) -> (r: bool)
    ensures
        r == exists|i: int| 0 <= i < loading@.len() && loading@[i]@ == path@,
{
    let mut i: usize = 0;
    while i < loading.len()
        invariant
            i <= loading.len(),
            forall|j: int| 0 <= j < i ==> loading@[j]@ != path@,
        decreases loading.len() - i,
    {
        if loading[i].eq(path) {
            return true;
        }
        i = i + 1;
    }
    false
}

} // verus!
