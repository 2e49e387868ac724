//! The compute side of the API client: it owns the endpoint, builds every
//! request URL, decides which requests carry the bearer token, and resolves a
//! project's repository URL into an `org/repo` pair. The HTTP transport
//! around it hands bodies back to `crate::response` for classification.

use vstd::prelude::*;
use vstd::string::StrSliceExecFns;
use vstd::string::StringExecFns;

use crate::error::SubqueryError;
use crate::subquery::config::Config;
use crate::subquery::types::Project;
use crate::text::find_char;
use crate::text::rfind_char_before;
use crate::text::spec_index_of;
use crate::text::spec_last_index_of;

verus! {

/// The repository URL up to (and without) its query string.
pub open spec fn spec_strip_query(s: Seq<char>) -> Seq<char> {
    match spec_index_of(s, '?') {
        Some(q) => s.take(q),
        None => s,
    }
}

/// Whether the path ends in `.git`.
pub open spec fn spec_ends_git(s: Seq<char>) -> bool {
    &&& s.len() >= 4
    &&& s[s.len() - 4] == '.'
    &&& s[s.len() - 3] == 'g'
    &&& s[s.len() - 2] == 'i'
    &&& s[s.len() - 1] == 't'
}

/// The repository path: the URL without its query string and without a
/// trailing `.git`.
pub open spec fn spec_repo_path(s: Seq<char>) -> Seq<char> {
    let t = spec_strip_query(s);
    if spec_ends_git(t) {
        t.take(t.len() - 4)
    } else {
        t
    }
}

/// The `org/repo` pair of a repository URL: the last two `/`-separated
/// segments of the path; `None` when the path has fewer than two segments.
pub open spec fn spec_parse_github_repo(s: Seq<char>) -> Option<Seq<char>> {
    let t = spec_repo_path(s);
    match spec_last_index_of(t, '/') {
        None => None,
        Some(j) => {
            let repo = t.subrange(j + 1, t.len() as int);
            let head = t.take(j);
            let org = match spec_last_index_of(head, '/') {
                None => head,
                Some(i) => head.subrange(i + 1, j),
            };
            Some(org + seq!['/'] + repo)
        },
    }
}

#[derive(Clone, Debug)]
pub struct Subquery {
    endpoint: String,
    config: Config,
}

impl Subquery {
    pub fn new(endpoint: String, config: Config) -> (r: Self)
        ensures
            r.spec_endpoint() == endpoint,
            r.spec_config() == config,
    {
        Self { endpoint, config }
    }

    pub closed spec fn spec_endpoint(self) -> String {
        self.endpoint
    }

    pub closed spec fn spec_config(self) -> Config {
        self.config
    }

    pub fn config(&self) -> (r: &Config)
        ensures
            r == self.spec_config(),
    {
        &self.config
    }

    /// The full URL of an API path.
    pub fn api(&self, api: &str) -> (r: String)
        ensures
            r@ == self.spec_endpoint()@ + api@,
    {
        let mut s = self.endpoint.clone();
        s.append(api);
        s
    }

    /// Resolves a repository URL into its `org/repo` pair: the query string
    /// and a trailing `.git` are stripped, and the last two `/`-separated
    /// path segments remain. A URL with fewer than two segments is refused.
    pub fn parse_github_repo(&self, repo_url: &str) -> (r: Result<String, SubqueryError>)
        ensures
            (match spec_parse_github_repo(repo_url@) {
                Some(name) => (r matches Ok(s) && s@ == name),
                None => (r matches Err(e) && e matches SubqueryError::Custom(m) && m@
                    == "Wrong repository url: "@ + repo_url@),
            }),
    {
        let n = repo_url.unicode_len();
        let q: usize = match find_char(repo_url, '?') {
            Some(i) => i,
            None => n,
        };
        proof {
            crate::text::lemma_index_of_props(repo_url@, '?');
            assert(repo_url@.take(n as int) =~= repo_url@);
            assert(spec_strip_query(repo_url@) =~= repo_url@.take(q as int));
        }
        let ghost t = spec_strip_query(repo_url@);
        let e: usize = if q >= 4 && repo_url.get_char(q - 4) == '.' && repo_url.get_char(q - 3)
            == 'g' && repo_url.get_char(q - 2) == 'i' && repo_url.get_char(q - 1) == 't' {
            q - 4
        } else {
            q
        };
        proof {
            assert(t.len() == q);
            if t.len() >= 4 {
                assert(t[t.len() - 4] == repo_url@[q - 4]);
                assert(t[t.len() - 3] == repo_url@[q - 3]);
                assert(t[t.len() - 2] == repo_url@[q - 2]);
                assert(t[t.len() - 1] == repo_url@[q - 1]);
            }
            assert(spec_repo_path(repo_url@) =~= repo_url@.take(e as int));
        }
        let ghost t2 = spec_repo_path(repo_url@);
        let jopt = rfind_char_before(repo_url, '/', e);
        proof {
            crate::text::lemma_last_index_of_props(repo_url@.take(e as int), '/');
        }
        let j: usize = match jopt {
            Some(j) => j,
            None => {
                let mut msg = String::from_str("Wrong repository url: ");
                msg.append(repo_url);
                return Err(SubqueryError::Custom(msg));
            },
        };
        let iopt = rfind_char_before(repo_url, '/', j);
        proof {
            crate::text::lemma_last_index_of_props(repo_url@.take(j as int), '/');
        }
        let org_start: usize = match iopt {
            Some(i) => i + 1,
            None => 0,
        };
        proof {
            assert(t2.take(j as int) =~= repo_url@.take(j as int));
        }
        let org = repo_url.substring_char(org_start, j);
        let repo = repo_url.substring_char(j + 1, e);
        let mut out = org.to_owned();
        out.append("/");
        out.append(repo);
        proof {
            reveal_strlit("/");
            assert("/"@ =~= seq!['/']);
            let head = t2.take(j as int);
            match spec_last_index_of(head, '/') {
                None => {
                    assert(org@ =~= head);
                },
                Some(i) => {
                    assert(org@ =~= head.subrange(i + 1, j as int));
                },
            }
            assert(repo@ =~= t2.subrange(j as int + 1, t2.len() as int));
            assert(out@ =~= spec_parse_github_repo(repo_url@)->0);
        }
        Ok(out)
    }

    /// Resolves the `org/repo` name of a project: the project must exist and
    /// carry a repository URL, which is then parsed.
    pub fn repo_name_of_project(&self, key: &str, project: &Option<Project>) -> (r: Result<
        String,
        SubqueryError,
    >)
        ensures
            (match project {
                None => (r matches Err(e) && e matches SubqueryError::Custom(m) && m@
                    == "The project "@ + key@ + " not found"@),
                Some(p) => (match p.git_repository {
                    None => (r matches Err(e) && e matches SubqueryError::Custom(m) && m@
                        == "Not have git repository url for project "@ + key@),
                    Some(repo) => (match spec_parse_github_repo(repo@) {
                        Some(name) => (r matches Ok(s) && s@ == name),
                        None => (r matches Err(e) && e matches SubqueryError::Custom(m) && m@
                            == "Wrong repository url: "@ + repo@),
                    }),
                }),
            }),
    {
        match project {
            None => {
                let mut msg = String::from_str("The project ");
                msg.append(key);
                msg.append(" not found");
                Err(SubqueryError::Custom(msg))
            },
            Some(p) => {
                match &p.git_repository {
                    None => {
                        let mut msg = String::from_str("Not have git repository url for project ");
                        msg.append(key);
                        Err(SubqueryError::Custom(msg))
                    },
                    Some(repo) => self.parse_github_repo(repo.as_str()),
                }
            },
        }
    }

    /// Whether a request to this path carries the bearer token: every
    /// endpoint does but the identity exchange.
    pub fn wants_bearer(path: &str) -> (r: bool)
        ensures
            r == (path@ != "/user"@),
    {
        !crate::text::str_eq(path, "/user")
    }

    /// `/user`: the identity-exchange and user-info endpoint.
    pub fn user_path(&self) -> (r: String)
        ensures
            r@ == "/user"@,
    {
        String::from_str("/user")
    }

    /// `/subqueries`: project creation.
    pub fn create_project_path(&self) -> (r: String)
        ensures
            r@ == "/subqueries"@,
    {
        String::from_str("/subqueries")
    }

    /// `/user/projects?account={account}`: the project list of an account.
    pub fn projects_path(&self, account: &str) -> (r: String)
        ensures
            r@ == "/user/projects?account="@ + account@,
    {
        let mut s = String::from_str("/user/projects?account=");
        s.append(account);
        s
    }

    /// `/subqueries/{key}`: one project.
    pub fn project_path(&self, key: &str) -> (r: String)
        ensures
            r@ == "/subqueries/"@ + key@,
    {
        let mut s = String::from_str("/subqueries/");
        s.append(key);
        s
    }

    /// `/subqueries/{key}/deployments`: the deployment list of a project.
    pub fn deployments_path(&self, key: &str) -> (r: String)
        ensures
            r@ == "/subqueries/"@ + key@ + "/deployments"@,
    {
        let mut s = String::from_str("/subqueries/");
        s.append(key);
        s.append("/deployments");
        s
    }

    /// `/subqueries/{key}/deployments/{id}`: one deployment.
    pub fn deployment_path(&self, key: &str, id: u64) -> (r: String)
        ensures
            r@ == "/subqueries/"@ + key@ + "/deployments/"@ + crate::text::spec_dec_str(id as nat),
    {
        let mut s = String::from_str("/subqueries/");
        s.append(key);
        s.append("/deployments/");
        let id_str = crate::text::u64_to_dec_string(id);
        s.append(id_str.as_str());
        s
    }

    /// `/subqueries/{key}/deployments/{id}/release`: promote to primary.
    pub fn release_path(&self, key: &str, id: u64) -> (r: String)
        ensures
            r@ == "/subqueries/"@ + key@ + "/deployments/"@ + crate::text::spec_dec_str(id as nat)
                + "/release"@,
    {
        let mut s = self.deployment_path(key, id);
        s.append("/release");
        s
    }

    /// `/subqueries/{key}/deployments/{id}/sync-status`: indexing progress.
    pub fn sync_status_path(&self, key: &str, id: u64) -> (r: String)
        ensures
            r@ == "/subqueries/"@ + key@ + "/deployments/"@ + crate::text::spec_dec_str(id as nat)
                + "/sync-status"@,
    {
        let mut s = self.deployment_path(key, id);
        s.append("/sync-status");
        s
    }

    /// `/info/images`: the container image catalog.
    pub fn images_path(&self) -> (r: String)
        ensures
            r@ == "/info/images"@,
    {
        String::from_str("/info/images")
    }

    /// `/info/github/{org/repo}/branches`: the branches of a repository.
    pub fn branches_path(&self, repo_name: &str) -> (r: String)
        ensures
            r@ == "/info/github/"@ + repo_name@ + "/branches"@,
    {
        let mut s = String::from_str("/info/github/");
        s.append(repo_name);
        s.append("/branches");
        s
    }

    /// `/info/github/{org/repo}/commits/{branch}`: the commits of a branch.
    pub fn commits_path(&self, repo_name: &str, branch: &str) -> (r: String)
        ensures
            r@ == "/info/github/"@ + repo_name@ + "/commits/"@ + branch@,
    {
        let mut s = String::from_str("/info/github/");
        s.append(repo_name);
        s.append("/commits/");
        s.append(branch);
        s
    }

    /// `/subqueries/{key}/logs?stage=&level=[&keyword=]`: the log search.
    pub fn logs_path(&self, key: &str, stage: bool, level: &str, keyword: &Option<String>) -> (r:
        String)
        ensures
            (match keyword {
                None => r@ == "/subqueries/"@ + key@ + "/logs?stage="@ + crate::text::spec_bool_str(
                    stage,
                ) + "&level="@ + level@,
                Some(kw) => r@ == "/subqueries/"@ + key@ + "/logs?stage="@
                    + crate::text::spec_bool_str(stage) + "&level="@ + level@ + "&keyword="@
                    + kw@,
            }),
    {
        let mut s = String::from_str("/subqueries/");
        s.append(key);
        s.append("/logs?stage=");
        s.append(crate::text::bool_str(stage));
        s.append("&level=");
        s.append(level);
        match keyword {
            Some(kw) => {
                s.append("&keyword=");
                s.append(kw.as_str());
            },
            None => {},
        }
        s
    }
}

} // verus!
