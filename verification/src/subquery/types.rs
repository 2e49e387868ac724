//! The data model of the control plane: users, projects, deployments and the
//! records the polling viewers consume. Timestamps are held as milliseconds
//! since the Unix epoch, so every field is a plain value the contracts can
//! speak about.

use vstd::prelude::*;
use vstd::string::StrSliceExecFns;
use vstd::string::StringExecFns;

use crate::text::rfind_char_before;
use crate::text::spec_last_index_of;
use crate::text::str_eq;

verus! {

#[derive(Clone, Debug)]
pub struct User {
    pub created_at: i64,
    pub updated_at: Option<i64>,
    pub id: String,
    pub email: String,
    pub username: String,
    pub display_name: String,
    pub avatar_url: Option<String>,
    pub exists_token: bool,
    pub access_token: String,
    pub accounts: Vec<Account>,
}

#[derive(Clone, Debug)]
pub struct Account {
    pub key: String,
    pub name: String,
    pub avatar_url: Option<String>,
    pub type_: AccountType,
}

#[derive(Clone, Copy, Debug, PartialEq, Eq, Structural)]
pub enum AccountType {
    User,
    Org,
}

#[derive(Clone, Copy, Debug, PartialEq, Eq, Structural)]
pub enum ApiVersion {
    Latest,
    V1,
    V2,
}

#[derive(Clone, Debug)]
pub struct Project {
    pub api_version: ApiVersion,
    pub created_at: Option<i64>,
    pub updated_at: Option<i64>,
    pub key: String,
    pub account: Option<String>,
    pub name: Option<String>,
    pub network: Option<String>,
    pub deployed: Option<bool>,
    pub logo_url: Option<String>,
    pub subtitle: Option<String>,
    pub description: Option<String>,
    pub git_repository: Option<String>,
    pub hide: Option<bool>,
    pub dedicate_db_key: Option<String>,
    pub query_url: Option<String>,
    pub deployment: Option<Deployment>,
}

#[derive(Clone, Debug)]
pub struct CreateProjectResponse {
    pub key: String,
}

#[derive(Clone, Debug)]
pub struct Deployment {
    pub created_at: i64,
    pub updated_at: Option<i64>,
    pub id: u64,
    pub project_key: String,
    pub version: String,
    pub status: DeploymentStatus,
    pub cluster: String,
    pub indexer_image: String,
    pub query_image: String,
    pub sub_folder: Option<String>,
    pub endpoint: Option<String>,
    pub dict_endpoint: Option<String>,
    pub type_: DeploymentType,
    pub query_url: String,
    pub query_cluster_url: Option<String>,
    pub metadata: Option<DeploymentMetadata>,
}

/// A deployment request as the user supplied it; the defaulting engine fills
/// the missing fields before it may cross into the API client.
#[derive(Clone, Debug)]
pub struct CreateDeployRequest {
    pub commit: Option<String>,
    pub endpoint: Option<String>,
    pub dict_endpoint: Option<String>,
    pub indexer_image_version: Option<String>,
    pub query_image_version: Option<String>,
    pub type_: DeploymentType,
    pub sub_folder: Option<String>,
    pub advanced_settings: AdvancedSettings,
}

#[derive(Clone, Copy, Debug, PartialEq, Eq, Structural)]
pub enum DeploymentType {
    Primary,
    Stage,
}

#[derive(Clone, Copy, Debug, PartialEq, Eq, Structural)]
pub enum DeploymentStatus {
    Processing,
    Running,
    Error,
    Stopped,
}

#[derive(Clone, Debug)]
pub struct DeploymentMetadata {
    pub role: String,
    pub is_sample: bool,
    pub enable_timestamp: bool,
    pub indexer_batch_size: u32,
}

#[derive(Clone, Debug)]
pub struct Branch {
    pub name: String,
    pub protected: bool,
    pub commit: BranchCommit,
}

#[derive(Clone, Debug)]
pub struct BranchCommit {
    pub sha: String,
    pub url: String,
}

#[derive(Clone, Debug)]
pub struct Commit {
    pub sha: String,
    pub message: String,
    pub time: i64,
    pub author: CommitAuthor,
}

#[derive(Clone, Debug)]
pub struct CommitAuthor {
    pub name: String,
    pub avatar_url: Option<String>,
}

/// A fully resolved deployment request: every defaulting field is present.
#[derive(Clone, Debug)]
pub struct DeployRequest {
    pub version: String,
    pub endpoint: Option<String>,
    pub dict_endpoint: Option<String>,
    pub indexer_image_version: String,
    pub query_image_version: String,
    pub type_: DeploymentType,
    pub advanced: AdvancedSettings,
}

/// The catalog of container image versions the service offers, newest first.
#[derive(Clone, Debug)]
pub struct Image {
    pub indexer: Vec<String>,
    pub query: Vec<String>,
}

#[derive(Clone, Debug)]
pub struct SyncStatus {
    pub processing_block: u32,
    pub target_block: u32,
    pub total_entities: u64,
}

#[derive(Clone, Debug)]
pub struct Log {
    pub start_time: i64,
    pub end_time: i64,
    pub search_after_id: Vec<u64>,
    pub result: Vec<LogResult>,
}

#[derive(Debug)]
pub struct LogResult {
    pub level: String,
    pub message: String,
    pub category: String,
    pub timestamp: i64,
}

#[derive(Clone, Copy, Debug, PartialEq, Eq, Structural)]
pub struct SubIndexerSettings {
    pub batch_size: u32,
    pub subscription: bool,
}

#[derive(Clone, Copy, Debug, PartialEq, Eq, Structural)]
pub struct SubQuerySettings {
    pub subscription: bool,
}

#[derive(Clone, Copy, Debug, PartialEq, Eq, Structural)]
pub struct AdvancedSettings {
    pub subql_node: SubIndexerSettings,
    pub subql_query: SubQuerySettings,
}

impl AdvancedSettings {
    pub fn new(batch_size: u32, subscription: bool) -> (r: Self)
        ensures
            r.subql_node.batch_size == batch_size,
            r.subql_node.subscription == subscription,
            r.subql_query.subscription == subscription,
    {
        Self {
            subql_node: SubIndexerSettings { batch_size, subscription },
            subql_query: SubQuerySettings { subscription },
        }
    }
}

impl Project {
    /// The input record for creating a project under `org` with short key
    /// `key`: the project key becomes `org/key`, a missing display name
    /// defaults to the key, and a missing hide flag defaults to hidden.
    pub fn for_create(
        org: String,
        key: String,
        name: Option<String>,
        subtitle: Option<String>,
        description: Option<String>,
        repo: String,
        hide: Option<bool>,
    ) -> (r: Project)
        ensures
            r.key@ == org@ + "/"@ + key@,
            r.account == Some(org),
            (match name {
                Some(n) => r.name == Some(n),
                None => r.name == Some(key),
            }),
            r.subtitle == subtitle,
            r.description == description,
            r.git_repository == Some(repo),
            (match hide {
                Some(h) => r.hide == Some(h),
                None => r.hide == Some(true),
            }),
            r.api_version == ApiVersion::Latest,
            r.created_at is None && r.updated_at is None && r.network is None,
            r.deployed is None && r.logo_url is None && r.dedicate_db_key is None,
            r.query_url is None && r.deployment is None,
    {
        let mut full_key = org.clone();
        full_key.append("/");
        full_key.append(key.as_str());
        let final_name: Option<String> = match name {
            Some(n) => Some(n),
            None => Some(key),
        };
        let final_hide: Option<bool> = match hide {
            Some(h) => Some(h),
            None => Some(true),
        };
        Project {
            api_version: ApiVersion::Latest,
            created_at: None,
            updated_at: None,
            key: full_key,
            account: Some(org),
            name: final_name,
            network: None,
            deployed: None,
            logo_url: None,
            subtitle,
            description,
            git_repository: Some(repo),
            hide: final_hide,
            dedicate_db_key: None,
            query_url: None,
            deployment: None,
        }
    }

    /// The input record for a partial update of the project `org/key`: only
    /// the supplied fields are set.
    pub fn for_update(
        org: String,
        key: String,
        name: Option<String>,
        subtitle: Option<String>,
        description: Option<String>,
        hide: Option<bool>,
    ) -> (r: Project)
        ensures
            r.key@ == org@ + "/"@ + key@,
            r.name == name,
            r.subtitle == subtitle,
            r.description == description,
            r.hide == hide,
            r.api_version == ApiVersion::Latest,
            r.account is None && r.created_at is None && r.updated_at is None,
            r.network is None && r.deployed is None && r.logo_url is None,
            r.git_repository is None && r.dedicate_db_key is None,
            r.query_url is None && r.deployment is None,
    {
        let mut full_key = org.clone();
        full_key.append("/");
        full_key.append(key.as_str());
        Project {
            api_version: ApiVersion::Latest,
            created_at: None,
            updated_at: None,
            key: full_key,
            account: None,
            name,
            network: None,
            deployed: None,
            logo_url: None,
            subtitle,
            description,
            git_repository: None,
            hide,
            dedicate_db_key: None,
            query_url: None,
            deployment: None,
        }
    }
}

/// The fields a partial project update sends: exactly those the caller
/// supplied.
#[derive(Clone, Debug)]
pub struct ProjectPatch {
    pub name: Option<String>,
    pub subtitle: Option<String>,
    pub description: Option<String>,
    pub hide: Option<bool>,
}

/// The last `/`-separated segment of a key.
pub open spec fn spec_last_segment(s: Seq<char>) -> Seq<char> {
    match spec_last_index_of(s, '/') {
        Some(j) => s.subrange(j + 1, s.len() as int),
        None => s,
    }
}

/// One project's line in the raw listing: the key alone when its last
/// segment is the display name, else the key with the name in parentheses.
pub open spec fn spec_list_line(p: Project) -> Seq<char> {
    let name = match p.name {
        Some(n) => n@,
        None => Seq::<char>::empty(),
    };
    if spec_last_segment(p.key@) == name {
        p.key@
    } else {
        p.key@ + " ("@ + name + ")"@
    }
}

impl Project {
    /// The partial-update record for this project: only the updatable
    /// fields, as they stand.
    pub fn update_patch(&self) -> (r: ProjectPatch)
        ensures
            r.name == self.name,
            r.subtitle == self.subtitle,
            r.description == self.description,
            r.hide == self.hide,
    {
        ProjectPatch {
            name: self.name.clone(),
            subtitle: self.subtitle.clone(),
            description: self.description.clone(),
            hide: self.hide,
        }
    }

    /// Renders this project's line in the raw listing.
    pub fn list_line(&self) -> (r: String)
        ensures
            r@ == spec_list_line(*self),
    {
        let n = self.key.as_str().unicode_len();
        let jopt = rfind_char_before(self.key.as_str(), '/', n);
        proof {
            assert(self.key@.take(n as int) =~= self.key@);
            crate::text::lemma_last_index_of_props(self.key@, '/');
        }
        let segment: &str = match jopt {
            Some(j) => self.key.as_str().substring_char(j + 1, n),
            None => self.key.as_str(),
        };
        let name: &str = match &self.name {
            Some(s) => s.as_str(),
            None => "",
        };
        proof {
            reveal_strlit("");
            assert(""@ =~= Seq::<char>::empty());
        }
        if str_eq(segment, name) {
            proof {
                assert(spec_last_segment(self.key@) =~= segment@);
            }
            self.key.clone()
        } else {
            proof {
                assert(spec_last_segment(self.key@) =~= segment@);
            }
            let mut s = self.key.clone();
            s.append(" (");
            s.append(name);
            s.append(")");
            proof {
                assert(s@ =~= spec_list_line(*self));
            }
            s
        }
    }
}

/// The position of the first project with this key, if any.
pub fn find_project_by_key(projects: &Vec<Project>, key: &str) -> (r: Option<usize>)
    ensures
        (match r {
            Some(i) => i < projects@.len() && projects@[i as int].key@ == key@ && (forall|j: int|
                0 <= j < i ==> projects@[j].key@ != key@),
            None => forall|j: int| 0 <= j < projects@.len() ==> projects@[j].key@ != key@,
        }),
{
    let mut i: usize = 0;
    while i < projects.len()
        invariant
            0 <= i <= projects@.len(),
            forall|j: int| 0 <= j < i ==> projects@[j].key@ != key@,
        decreases projects@.len() - i,
    {
        if str_eq(projects[i].key.as_str(), key) {
            return Some(i);
        }
        i = i + 1;
    }
    None
}

} // verus!
