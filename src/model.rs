//! Records exchanged with the platform: request options and their responses.

use crate::cli::WatchLevel;
use std::collections::HashMap;
use vstd::prelude::*;

verus! {

/// Creates an empty, writable file object.
#[derive(Debug, Clone)]
pub struct FileNewOptions {
    pub project: String,
    pub name: Option<String>,
    pub tags: Vec<String>,
    pub types: Vec<String>,
    pub hidden: Option<bool>,
    pub details: Option<HashMap<String, String>>,
    pub folder: Option<String>,
    pub parents: Option<bool>,
    pub media: Option<String>,
    pub nonce: Option<String>,
}

/// The identifier of a newly created object.
#[derive(Debug, Clone)]
pub struct FileNewResponse {
    pub id: String,
}

/// Asks for a write target for one part of an open file.
#[derive(Debug, Clone, PartialEq, Eq)]
pub struct FileUploadOptions {
    pub size: usize,
    pub md5: String,
    pub index: u64,
}

/// Where and how to send the bytes of one part.
#[derive(Debug, Clone)]
pub struct FileUploadResponse {
    pub url: String,
    pub expires: u64,
    pub headers: HashMap<String, String>,
}

/// Closes an open file, making it immutable and readable.
#[derive(Debug, Clone, PartialEq, Eq)]
pub struct FileCloseOptions {
    pub id: String,
}

/// The identifier of a closed file.
#[derive(Debug, Clone)]
pub struct FileCloseResponse {
    pub id: String,
}

/// Asks for a time-limited fetch descriptor of a file.
#[derive(Debug, Clone, PartialEq, Eq)]
pub struct DownloadOptions {
    pub duration: Option<u64>,
    pub filename: Option<String>,
    pub project: Option<String>,
    pub preauthenticated: Option<bool>,
    pub sticky_ip: Option<bool>,
}

/// Where to fetch a file's bytes, and the headers to send along.
#[derive(Debug, Clone)]
pub struct DownloadResponse {
    pub url: String,
    pub headers: HashMap<String, String>,
}

/// Asks for the log messages of a job.
#[derive(Debug, Clone)]
pub struct WatchOptions {
    pub num_recent_messages: Option<u32>,
    pub recurse_jobs: Option<bool>,
    pub tail: Option<bool>,
    pub levels: Vec<WatchLevel>,
}

/// The answer to a log request.
#[derive(Debug, Clone)]
pub struct WatchResult {
    pub id: String,
}

/// A structured error answer of the platform.
#[derive(Debug, Clone)]
pub struct DxErrorResponse {
    pub error: DxErrorPayload,
}

/// The kind and text of a structured error.
#[derive(Debug, Clone)]
pub struct DxErrorPayload {
    pub error_type: String,
    pub message: String,
}

/// A user name and password to log in with.
#[derive(Debug, Clone)]
pub struct Credentials {
    pub username: String,
    pub password: String,
}

/// Removes objects from a container.
#[derive(Debug, Clone)]
pub struct RmOptions {
    pub objects: Vec<String>,
    pub force: Option<bool>,
}

/// The container that objects were removed from.
#[derive(Debug, Clone)]
pub struct RmResult {
    pub id: String,
}

/// Removes a folder; `partial` lets a large removal finish over several calls.
#[derive(Debug, Clone)]
pub struct RmdirOptions {
    pub folder: String,
    pub recurse: Option<bool>,
    pub force: Option<bool>,
    pub partial: Option<bool>,
}

/// The container a folder was removed from, and whether the removal finished.
#[derive(Debug, Clone)]
pub struct RmdirResult {
    pub id: String,
    pub completed: Option<bool>,
}

/// Removes a container.
#[derive(Debug, Clone)]
pub struct RmProjectOptions {
    pub terminate_jobs: Option<bool>,
}

/// The container that was removed.
#[derive(Debug, Clone)]
pub struct RmProjectResult {
    pub id: String,
}

/// A name to match: by glob or by regular expression.
#[derive(Debug, Clone)]
pub enum FindName {
    Glob(String),
    Regexp(String),
}

/// Criteria of an application search; `starting` is the cursor.
#[derive(Debug, Clone)]
pub struct FindAppsOptions {
    pub name: Option<FindName>,
    pub category: Option<String>,
    pub all_versions: Option<bool>,
    pub published: Option<bool>,
    pub bill_to: Vec<String>,
    pub created_by: Option<String>,
    pub developer: Option<String>,
    pub authorized_user: Option<String>,
    pub starting: Option<String>,
    pub limit: Option<u64>,
    pub describe: Option<FindAppsDescribe>,
}

/// One page of an application search, with the cursor of the next.
#[derive(Debug, Clone)]
pub struct FindAppsResponse {
    pub results: Vec<FindAppsResult>,
    pub next: Option<String>,
}

/// One application found.
#[derive(Debug, Clone)]
pub struct FindAppsResult {
    pub id: String,
    pub describe: Option<HashMap<String, String>>,
}

/// The fields to describe of each application found, each with whether to describe it.
#[derive(Debug, Clone)]
pub struct FindAppsDescribe {
    pub fields: Vec<(AppDescribeField, bool)>,
}

/// Fields of an application description.
#[derive(Debug, Clone, Copy, PartialEq, Eq, Hash, Structural)]
pub enum AppDescribeField {
    Id,
    Class,
    BillTo,
    Name,
    Version,
    Aliases,
    Region,
    Applet,
    CreatedBy,
    Created,
    Modified,
    Installed,
    OpenSource,
    IgnoreReuse,
    Deleted,
    Installs,
    IsDeveloperFor,
    AuthorizedUsers,
    RegionalOptions,
    HttpsApp,
    Published,
    Title,
    Summary,
    Description,
    Details,
    Categories,
    LineItemPerTest,
    Access,
    InputSpec,
    OutputSpec,
    DxApi,
    RunSpec,
    TreeTurnaroundTimeThreshold,
    Resources,
}

/// Whether, and which fields, to describe of each object found.
#[derive(Debug, Clone)]
pub enum FindDescribe {
    Boolean(bool),
    Mapping(HashMap<String, bool>),
}

/// A time window of a search.
#[derive(Debug, Clone)]
pub struct SearchTime {
    pub after: Option<String>,
    pub before: Option<String>,
}

/// How to order search results.
#[derive(Debug, Clone)]
pub struct FindDataSortBy {
    pub field: Option<SortByField>,
    pub ordering: Option<SortOrdering>,
}

/// The field that search results are ordered by.
#[derive(Debug, Clone, Copy, PartialEq, Eq, Hash, Structural)]
pub enum SortByField {
    Created,
}

/// Ascending or descending order.
#[derive(Debug, Clone, Copy, PartialEq, Eq, Hash, Structural)]
pub enum SortOrdering {
    Ascending,
    Descending,
}

/// The container and folder a data search is limited to.
#[derive(Debug, Clone)]
pub struct FindDataScope {
    pub project: Option<String>,
    pub folder: Option<String>,
    pub recurse: Option<bool>,
}

/// Which objects a search sees: hidden, visible or both.
#[derive(Debug, Clone, Copy, PartialEq, Eq, Hash, Structural)]
pub enum Visibility {
    Hidden,
    Visible,
    Either,
}

/// Classes of data objects.
#[derive(Debug, Clone, Copy, PartialEq, Eq, Hash, Structural)]
pub enum ObjectType {
    Applet,
    File,
    Record,
    Workflow,
}

/// Life-cycle states of a data object.
#[derive(Debug, Clone, Copy, PartialEq, Eq, Hash, Structural)]
pub enum ObjectState {
    Opening,
    Open,
    Closed,
    Any,
}

/// Archival states of a file.
#[derive(Debug, Clone, Copy, PartialEq, Eq, Hash, Structural)]
pub enum ArchivalState {
    Live,
    Archival,
    Archived,
    Unarchiving,
    Any,
}

/// Creates a folder.
#[derive(Debug, Clone)]
pub struct MakeFolderOptions {
    pub folder: String,
    pub parents: bool,
}

/// The container a folder was created in.
#[derive(Debug, Clone)]
pub struct MakeFolderResult {
    pub id: String,
}

/// Creates a container.
#[derive(Debug, Clone)]
pub struct NewProjectOptions {
    pub name: String,
    pub summary: Option<String>,
    pub description: Option<String>,
    pub protected: bool,
    pub restricted: bool,
    pub download_restricted: bool,
    pub external_upload_restricted: bool,
    pub database_ui_view_only: bool,
    pub contains_phi: bool,
    pub tags: Option<Vec<String>>,
    pub properties: Option<HashMap<String, String>>,
    pub bill_to: Option<String>,
    pub region: Option<String>,
    pub monthly_compute_limit: Option<u64>,
    pub monthly_egress_bytes_limit: Option<u64>,
}

/// The identifier of a new container.
#[derive(Debug, Clone)]
pub struct NewProjectResult {
    pub id: String,
}

/// A token granted at login.
#[derive(Debug, Clone)]
pub struct AuthToken {
    pub access_token: String,
    pub token_signature: String,
    pub token_type: String,
    pub user_id: String,
}

/// Asks who the current user is.
#[derive(Debug, Clone)]
pub struct WhoAmIOptions {
    pub fields: Option<HashMap<WhoAmIOptionsFields, bool>>,
}

/// Fields of the current user's description.
#[derive(Debug, Clone, Copy, PartialEq, Eq, Hash, Structural)]
pub enum WhoAmIOptionsFields {
    ClientIp,
}

/// The current user.
#[derive(Debug, Clone)]
pub struct WhoAmIResult {
    pub id: String,
    pub client_ip: Option<String>,
}

/// The currency that prices are given in.
#[derive(Debug, Clone)]
pub struct Currency {
    pub dx_code: u64,
    pub code: String,
    pub symbol: String,
    pub symbol_position: String,
    pub decimal_symbol: String,
    pub grouping_symbol: String,
}

/// Who created an object, and through which job.
#[derive(Debug, Clone)]
pub struct CreatedBy {
    pub user: String,
    pub job: Option<String>,
    pub executable: Option<String>,
}

/// Network access of an application.
#[derive(Debug, Clone)]
pub struct AppAccess {
    pub network: Vec<String>,
}

/// The instance type of an entry point.
#[derive(Debug, Clone)]
pub struct AppSystemRequirement {
    pub instance_type: Option<String>,
}


impl ObjectState {
    /// The text shown for this state.
    pub fn as_str(&self) -> (r: &'static str)
        ensures
            r@ == match self {
                ObjectState::Opening => "opening"@,
                ObjectState::Open => "open"@,
                ObjectState::Closed => "closed"@,
                ObjectState::Any => "any"@,
            },
    {
        match self {
            ObjectState::Opening => "opening",
            ObjectState::Open => "open",
            ObjectState::Closed => "closed",
            ObjectState::Any => "any",
        }
    }
}

impl ArchivalState {
    /// The text shown for this archival state.
    pub fn as_str(&self) -> (r: &'static str)
        ensures
            r@ == match self {
                ArchivalState::Live => "live"@,
                ArchivalState::Archival => "archival"@,
                ArchivalState::Archived => "archived"@,
                ArchivalState::Unarchiving => "unarchiving"@,
                ArchivalState::Any => "any"@,
            },
    {
        match self {
            ArchivalState::Live => "live",
            ArchivalState::Archival => "archival",
            ArchivalState::Archived => "archived",
            ArchivalState::Unarchiving => "unarchiving",
            ArchivalState::Any => "any",
        }
    }
}

} // verus!
