//! Telling what kind of object an identifier names, without asking the platform.

use crate::location::{container_id_len, container_tag, file_tag, is_id, starts_with_id, ID_BODY_LEN};
use vstd::prelude::*;

verus! {

/// The kinds of object that can be described.
#[derive(Debug, Clone, Copy, PartialEq, Eq, Structural)]
pub enum ObjectKind {
    Analysis,
    App,
    Applet,
    Container,
    Database,
    File,
    Job,
    Project,
    Record,
}

/// An object to describe, with the container it was named in, for the kinds
/// that live in one.
#[derive(Debug, Clone, PartialEq, Eq)]
pub enum DescribeObject {
    Analysis { analysis_id: String },
    App { app_id: String },
    Applet { project_id: Option<String>, applet_id: String },
    Container { container_id: String },
    Database { project_id: Option<String>, database_id: String },
    File { project_id: Option<String>, file_id: String },
    Job { job_id: String },
    Project { project_id: String },
    Record { project_id: Option<String>, record_id: String },
}

/// The view of an optional text.
pub open spec fn opt_view(o: Option<String>) -> Option<Seq<char>> {
    match o {
        Some(s) => Some(s@),
        None => None,
    }
}

impl DescribeObject {
    /// The kind of the object.
    pub open spec fn kind(&self) -> ObjectKind {
        match self {
            DescribeObject::Analysis { .. } => ObjectKind::Analysis,
            DescribeObject::App { .. } => ObjectKind::App,
            DescribeObject::Applet { .. } => ObjectKind::Applet,
            DescribeObject::Container { .. } => ObjectKind::Container,
            DescribeObject::Database { .. } => ObjectKind::Database,
            DescribeObject::File { .. } => ObjectKind::File,
            DescribeObject::Job { .. } => ObjectKind::Job,
            DescribeObject::Project { .. } => ObjectKind::Project,
            DescribeObject::Record { .. } => ObjectKind::Record,
        }
    }

    /// The object's identifier.
    pub open spec fn object_id(&self) -> Seq<char> {
        match self {
            DescribeObject::Analysis { analysis_id } => analysis_id@,
            DescribeObject::App { app_id } => app_id@,
            DescribeObject::Applet { applet_id, .. } => applet_id@,
            DescribeObject::Container { container_id } => container_id@,
            DescribeObject::Database { database_id, .. } => database_id@,
            DescribeObject::File { file_id, .. } => file_id@,
            DescribeObject::Job { job_id } => job_id@,
            DescribeObject::Project { project_id } => project_id@,
            DescribeObject::Record { record_id, .. } => record_id@,
        }
    }

    /// The container the object was named in, if it was.
    pub open spec fn scope(&self) -> Option<Seq<char>> {
        match self {
            DescribeObject::Applet { project_id, .. } => opt_view(*project_id),
            DescribeObject::Database { project_id, .. } => opt_view(*project_id),
            DescribeObject::File { project_id, .. } => opt_view(*project_id),
            DescribeObject::Record { project_id, .. } => opt_view(*project_id),
            _ => None,
        }
    }
}

/// An identifier with the given tag, alone or after a container identifier
/// and a `:`; the container, if named, and the identifier.
pub open spec fn scoped_id(s: Seq<char>, tag: Seq<char>) -> Option<(Option<Seq<char>>, Seq<char>)> {
    let n = container_id_len();
    if is_id(s, tag) {
        Some((None, s))
    } else if starts_with_id(s, container_tag()) && s.len() > n && s[n] == ':' && is_id(
        s.skip(n + 1),
        tag,
    ) {
        Some((Some(s.take(n)), s.skip(n + 1)))
    } else {
        None
    }
}

/// A scoped identifier, tagged with its kind.
pub open spec fn with_kind(
    kind: ObjectKind,
    scoped: Option<(Option<Seq<char>>, Seq<char>)>,
) -> Option<(ObjectKind, Option<Seq<char>>, Seq<char>)> {
    match scoped {
        Some((scope, id)) => Some((kind, scope, id)),
        None => None,
    }
}

/// What an identifier names: its kind, the container it was named in, and
/// the object's own identifier; nothing for text that is no identifier.
pub open spec fn describe_target(s: Seq<char>) -> Option<(ObjectKind, Option<Seq<char>>, Seq<char>)> {
    if is_id(s, "analysis-"@) {
        Some((ObjectKind::Analysis, None, s))
    } else if is_id(s, container_tag()) {
        Some((ObjectKind::Project, None, s))
    } else if scoped_id(s, file_tag()) is Some {
        with_kind(ObjectKind::File, scoped_id(s, file_tag()))
    } else if is_id(s, "job-"@) {
        Some((ObjectKind::Job, None, s))
    } else if scoped_id(s, "record-"@) is Some {
        with_kind(ObjectKind::Record, scoped_id(s, "record-"@))
    } else if scoped_id(s, "database-"@) is Some {
        with_kind(ObjectKind::Database, scoped_id(s, "database-"@))
    } else if scoped_id(s, "applet-"@) is Some {
        with_kind(ObjectKind::Applet, scoped_id(s, "applet-"@))
    } else if is_id(s, "app-"@) {
        Some((ObjectKind::App, None, s))
    } else if is_id(s, "container-"@) {
        Some((ObjectKind::Container, None, s))
    } else {
        None
    }
}

/// Whether `s` is exactly one identifier with the given tag.
fn is_tagged_id(s: &str, tag: &str) -> (r: bool)
    ensures
        r == is_id(s@, tag@),
{
    crate::location::has_id_prefix(s, tag) && s.unicode_len() == tag.unicode_len() + ID_BODY_LEN
}

/// Splits an identifier with the given tag from the container it may be named in.
fn split_scoped(s: &str, tag: &str) -> (r: Option<(Option<String>, String)>)
    ensures
        match scoped_id(s@, tag@) {
            None => r is None,
            Some((c, id)) => r matches Some((rc, rid)) && rid@ == id && opt_view(rc) == c,
        },
{
    if is_tagged_id(s, tag) {
        return Some((None, String::from_str(s)));
    }
    let ptag = "project-";
    proof {
        reveal_strlit("project-");
        assert(ptag@ =~= container_tag());
    }
    let n = s.unicode_len();
    let k = ptag.unicode_len() + ID_BODY_LEN;
    if crate::location::has_id_prefix(s, ptag) && n > k && s.get_char(k) == ':' {
        let rest = s.substring_char(k + 1, n);
        assert(rest@ =~= s@.skip(k + 1));
        if is_tagged_id(rest, tag) {
            let project = s.substring_char(0, k);
            assert(project@ =~= s@.take(k as int));
            return Some((Some(String::from_str(project)), String::from_str(rest)));
        }
    }
    None
}

/// What an identifier names, or nothing for text that is no identifier.
pub fn get_describe_object_type(id: &str) -> (r: Option<DescribeObject>)
    ensures
        match describe_target(id@) {
            None => r is None,
            Some((kind, scope, object_id)) => r matches Some(d) && d.kind() == kind && d.scope()
                == scope && d.object_id() == object_id,
        },
{
    let ptag = "project-";
    let ftag = "file-";
    proof {
        reveal_strlit("project-");
        reveal_strlit("file-");
        assert(ptag@ =~= container_tag());
        assert(ftag@ =~= file_tag());
    }
    if is_tagged_id(id, "analysis-") {
        Some(DescribeObject::Analysis { analysis_id: String::from_str(id) })
    } else if is_tagged_id(id, ptag) {
        Some(DescribeObject::Project { project_id: String::from_str(id) })
    } else if let Some((project_id, file_id)) = split_scoped(id, ftag) {
        Some(DescribeObject::File { project_id, file_id })
    } else if is_tagged_id(id, "job-") {
        Some(DescribeObject::Job { job_id: String::from_str(id) })
    } else if let Some((project_id, record_id)) = split_scoped(id, "record-") {
        Some(DescribeObject::Record { project_id, record_id })
    } else if let Some((project_id, database_id)) = split_scoped(id, "database-") {
        Some(DescribeObject::Database { project_id, database_id })
    } else if let Some((project_id, applet_id)) = split_scoped(id, "applet-") {
        Some(DescribeObject::Applet { project_id, applet_id })
    } else if is_tagged_id(id, "app-") {
        Some(DescribeObject::App { app_id: String::from_str(id) })
    } else if is_tagged_id(id, "container-") {
        Some(DescribeObject::Container { container_id: String::from_str(id) })
    } else {
        None
    }
}

} // verus!
