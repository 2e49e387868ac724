//! The deployment defaulting engine: it completes a partially specified
//! deployment request from the commit list and the image catalog, picks the
//! deployment a redeploy or promote should target, and lays out the actions a
//! (force-)deploy must issue, in order.

use vstd::prelude::*;
use vstd::string::StringExecFns;

use crate::error::SubqueryError;
use crate::subquery::types::Commit;
use crate::subquery::types::CreateDeployRequest;
use crate::subquery::types::DeployRequest;
use crate::subquery::types::Deployment;
use crate::subquery::types::DeploymentType;
use crate::subquery::types::Image;

verus! {

/// Which image list a missing version would have come from.
#[derive(Clone, Copy, Debug, PartialEq, Eq, Structural)]
pub enum ImageKind {
    Indexer,
    Query,
}

/// Commit resolution: an already chosen commit stays; a missing one becomes
/// the first (most recent) commit of the list; an empty list is a failure.
pub open spec fn spec_resolve_commit(req: CreateDeployRequest, commits: Seq<Commit>) -> Option<
    CreateDeployRequest,
> {
    if req.commit is Some {
        Some(req)
    } else if commits.len() == 0 {
        None
    } else {
        Some(CreateDeployRequest { commit: Some(commits[0].sha), ..req })
    }
}

/// Image resolution: missing versions become the first entry of the
/// respective list, fetched lazily by the caller; an empty needed list is a
/// failure, the query list being consulted first.
pub open spec fn spec_resolve_images(req: CreateDeployRequest, image: Image) -> Result<
    CreateDeployRequest,
    ImageKind,
> {
    if req.query_image_version is None && image.query@.len() == 0 {
        Err(ImageKind::Query)
    } else if req.indexer_image_version is None && image.indexer@.len() == 0 {
        Err(ImageKind::Indexer)
    } else {
        Ok(
            CreateDeployRequest {
                query_image_version: if req.query_image_version is Some {
                    req.query_image_version
                } else {
                    Some(image.query@[0])
                },
                indexer_image_version: if req.indexer_image_version is Some {
                    req.indexer_image_version
                } else {
                    Some(image.indexer@[0])
                },
                ..req
            },
        )
    }
}

impl CreateDeployRequest {
    /// Every defaulting field has been filled in; only such a request may
    /// cross into the API client.
    pub open spec fn spec_resolved(self) -> bool {
        &&& self.commit is Some
        &&& self.indexer_image_version is Some
        &&& self.query_image_version is Some
    }

    pub fn is_resolved(&self) -> (r: bool)
        ensures
            r == self.spec_resolved(),
    {
        self.commit.is_some() && self.indexer_image_version.is_some()
            && self.query_image_version.is_some()
    }

    /// Needs the commit list fetched before it can be resolved.
    pub fn needs_commit(&self) -> (r: bool)
        ensures
            r == (self.commit is None),
    {
        self.commit.is_none()
    }

    /// Needs the image catalog fetched before it can be resolved.
    pub fn needs_image(&self) -> (r: bool)
        ensures
            r == (self.indexer_image_version is None || self.query_image_version is None),
    {
        self.indexer_image_version.is_none() || self.query_image_version.is_none()
    }

    /// Fills a missing commit from the most recent entry of `commits`;
    /// `repo` and `branch` only name the repository in the error.
    pub fn resolve_commit(self, commits: &Vec<Commit>, repo: &str, branch: &str) -> (r: Result<
        CreateDeployRequest,
        SubqueryError,
    >)
        ensures
            (match spec_resolve_commit(self, commits@) {
                Some(out) => (r matches Ok(v) && v == out),
                None => (r matches Err(e) && e matches SubqueryError::Custom(m) && m@
                    == "No commit found in git repository "@ + repo@ + "#"@ + branch@),
            }),
    {
        if self.commit.is_some() {
            Ok(self)
        } else if commits.len() == 0 {
            let mut msg = String::from_str("No commit found in git repository ");
            msg.append(repo);
            msg.append("#");
            msg.append(branch);
            Err(SubqueryError::Custom(msg))
        } else {
            let sha = commits[0].sha.clone();
            Ok(CreateDeployRequest { commit: Some(sha), ..self })
        }
    }

    /// Fills missing image versions from the first entry of each catalog
    /// list.
    pub fn resolve_images(self, image: &Image) -> (r: Result<CreateDeployRequest, SubqueryError>)
        ensures
            (match spec_resolve_images(self, *image) {
                Ok(out) => (r matches Ok(v) && v == out),
                Err(ImageKind::Query) => (r matches Err(e) && e matches SubqueryError::Custom(m)
                    && m@ == "Not found query image"@),
                Err(ImageKind::Indexer) => (r matches Err(e) && e matches SubqueryError::Custom(m)
                    && m@ == "Not found indexer image"@),
            }),
    {
        let query_image_version: Option<String> = match self.query_image_version {
            Some(v) => Some(v),
            None => {
                if image.query.len() == 0 {
                    return Err(SubqueryError::Custom(String::from_str("Not found query image")));
                }
                Some(image.query[0].clone())
            },
        };
        let indexer_image_version: Option<String> = match self.indexer_image_version {
            Some(v) => Some(v),
            None => {
                if image.indexer.len() == 0 {
                    return Err(SubqueryError::Custom(String::from_str("Not found indexer image")));
                }
                Some(image.indexer[0].clone())
            },
        };
        Ok(CreateDeployRequest { query_image_version, indexer_image_version, ..self })
    }

    /// Turns a fully resolved request into the record the service accepts.
    pub fn into_request(self) -> (r: DeployRequest)
        requires
            self.spec_resolved(),
        ensures
            r.version == self.commit->0,
            r.endpoint == self.endpoint,
            r.dict_endpoint == self.dict_endpoint,
            r.indexer_image_version == self.indexer_image_version->0,
            r.query_image_version == self.query_image_version->0,
            r.type_ == self.type_,
            r.advanced == self.advanced_settings,
    {
        let commit = match self.commit {
            Some(c) => c,
            None => unreached(),
        };
        let indexer_image_version = match self.indexer_image_version {
            Some(v) => v,
            None => unreached(),
        };
        let query_image_version = match self.query_image_version {
            Some(v) => v,
            None => unreached(),
        };
        DeployRequest {
            version: commit,
            endpoint: self.endpoint,
            dict_endpoint: self.dict_endpoint,
            indexer_image_version,
            query_image_version,
            type_: self.type_,
            advanced: self.advanced_settings,
        }
    }
}

/// The position of the first deployment of the given type, if any.
pub fn find_deployment_by_type(deployments: &Vec<Deployment>, type_: DeploymentType) -> (r: Option<
    usize,
>)
    ensures
        (match r {
            Some(i) => i < deployments@.len() && deployments@[i as int].type_ == type_ && (forall|
                j: int,
            | 0 <= j < i ==> deployments@[j].type_ != type_),
            None => forall|j: int| 0 <= j < deployments@.len() ==> deployments@[j].type_ != type_,
        }),
{
    let mut i: usize = 0;
    while i < deployments.len()
        invariant
            0 <= i <= deployments@.len(),
            forall|j: int| 0 <= j < i ==> deployments@[j].type_ != type_,
        decreases deployments@.len() - i,
    {
        if deployments[i].type_ == type_ {
            return Some(i);
        }
        i = i + 1;
    }
    None
}

/// The deployment a redeploy acts on: an explicit id wins; otherwise the
/// first deployment of the requested type; none means "not found".
pub fn select_redeploy_target(
    id: Option<u64>,
    deployments: &Vec<Deployment>,
    type_: DeploymentType,
) -> (r: Option<u64>)
    ensures
        (match id {
            Some(v) => r == Some(v),
            None => (match r {
                Some(d) => exists|j: int|
                    0 <= j < deployments@.len() && deployments@[j].type_ == type_
                        && deployments@[j].id == d && (forall|k: int|
                        0 <= k < j ==> deployments@[k].type_ != type_),
                None => forall|j: int|
                    0 <= j < deployments@.len() ==> deployments@[j].type_ != type_,
            }),
        }),
{
    match id {
        Some(v) => Some(v),
        None => {
            match find_deployment_by_type(deployments, type_) {
                Some(i) => Some(deployments[i].id),
                None => None,
            }
        },
    }
}

/// The deployment a promote acts on: an explicit id wins; otherwise the
/// first stage deployment; none means "not found", which a promote reports
/// without failing.
pub fn select_promote_target(id: Option<u64>, deployments: &Vec<Deployment>) -> (r: Option<u64>)
    ensures
        (match id {
            Some(v) => r == Some(v),
            None => (match r {
                Some(d) => exists|j: int|
                    0 <= j < deployments@.len() && deployments@[j].type_ == DeploymentType::Stage
                        && deployments@[j].id == d && (forall|k: int|
                        0 <= k < j ==> deployments@[k].type_ != DeploymentType::Stage),
                None => forall|j: int|
                    0 <= j < deployments@.len() ==> deployments@[j].type_
                        != DeploymentType::Stage,
            }),
        }),
{
    select_redeploy_target(id, deployments, DeploymentType::Stage)
}

/// One step of a deploy: deployments are deleted before the creation is
/// submitted.
#[derive(Clone, Debug)]
pub enum DeployAction {
    Delete(u64),
    Create(CreateDeployRequest),
}

/// Lays out a deploy as the actions to issue, in order. In force mode, when
/// a deployment of the requested type already exists, its deletion is issued
/// strictly before the creation; otherwise the creation stands alone. The
/// creation carries the request unchanged; defaulting completes it between
/// the deletion and the submission, and `into_request` refuses a request
/// that is not fully resolved.
pub fn plan_deploy(existing: &Vec<Deployment>, request: CreateDeployRequest, force: bool) -> (plan:
    Vec<DeployAction>)
    ensures
        ({
            let occupied = exists|j: int|
                0 <= j < existing@.len() && existing@[j].type_ == request.type_;
            if force && occupied {
                &&& plan@.len() == 2
                &&& (plan@[0] matches DeployAction::Delete(id) && exists|j: int|
                    0 <= j < existing@.len() && existing@[j].type_ == request.type_
                        && existing@[j].id == id && (forall|k: int|
                        0 <= k < j ==> existing@[k].type_ != request.type_))
                &&& plan@[1] == DeployAction::Create(request)
            } else {
                &&& plan@.len() == 1
                &&& plan@[0] == DeployAction::Create(request)
            }
        }),
{
    let mut plan: Vec<DeployAction> = Vec::new();
    if force {
        match find_deployment_by_type(existing, request.type_) {
            Some(i) => {
                plan.push(DeployAction::Delete(existing[i].id));
            },
            None => {},
        }
    }
    plan.push(DeployAction::Create(request));
    plan
}

/// For every partially specified request: resolution populates the commit
/// from the first commit of the list and each image version from the first
/// entry of its catalog list, fails exactly when a needed list is empty —
/// the query list consulted first — and never yields a partially filled
/// request.
pub proof fn lemma_defaulting_complete(req: CreateDeployRequest, commits: Seq<Commit>, image: Image)
    ensures
        (spec_resolve_commit(req, commits) is None <==> req.commit is None && commits.len() == 0),
        (spec_resolve_images(req, image) == Err::<CreateDeployRequest, ImageKind>(ImageKind::Query)
            <==> req.query_image_version is None && image.query@.len() == 0),
        (spec_resolve_images(req, image) == Err::<CreateDeployRequest, ImageKind>(
            ImageKind::Indexer,
        ) <==> req.indexer_image_version is None && image.indexer@.len() == 0 && !(
        req.query_image_version is None && image.query@.len() == 0)),
        (match spec_resolve_commit(req, commits) {
            Some(c1) => {
                &&& c1.commit is Some
                &&& (req.commit is Some ==> c1 == req)
                &&& (req.commit is None ==> commits.len() > 0 && c1.commit == Some(
                    commits[0].sha,
                ))
                &&& (match spec_resolve_images(c1, image) {
                    Ok(c2) => {
                        &&& c2.spec_resolved()
                        &&& c2.commit == c1.commit
                        &&& (c1.indexer_image_version is Some ==> c2.indexer_image_version
                            == c1.indexer_image_version)
                        &&& (c1.indexer_image_version is None ==> c2.indexer_image_version == Some(
                            image.indexer@[0],
                        ))
                        &&& (c1.query_image_version is Some ==> c2.query_image_version
                            == c1.query_image_version)
                        &&& (c1.query_image_version is None ==> c2.query_image_version == Some(
                            image.query@[0],
                        ))
                        &&& c2.type_ == c1.type_
                        &&& c2.endpoint == c1.endpoint
                        &&& c2.dict_endpoint == c1.dict_endpoint
                        &&& c2.sub_folder == c1.sub_folder
                        &&& c2.advanced_settings == c1.advanced_settings
                    },
                    Err(ImageKind::Query) => c1.query_image_version is None && image.query@.len()
                        == 0,
                    Err(ImageKind::Indexer) => c1.indexer_image_version is None
                        && image.indexer@.len() == 0,
                })
            },
            None => true,
        }),
{
}

} // verus!
