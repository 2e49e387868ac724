//! The command surface: what the argument parser hands the library, already
//! decoded into plain values, and the parsing of the small keyword enums.

use vstd::prelude::*;

use crate::subquery::types::DeploymentType;
use crate::text::str_eq;

verus! {

/// Generic command
#[derive(Debug)]
pub struct Opt {
    /// Access token; when absent the environment supplies it.
    pub token: Option<String>,
    pub command: SubqueryOpt,
}

#[derive(Debug)]
pub enum SubqueryOpt {
    User { command: UserOpt },
    Project { command: ProjectOpt },
    Deployment { command: DeploymentOpt },
    Logs { command: LogsCommand },
}

#[derive(Debug)]
pub struct LogsCommand {
    pub org: String,
    pub key: String,
    pub stage: bool,
    pub level: String,
    pub keyword: Option<String>,
    pub rolling: bool,
    pub interval: u64,
}

#[derive(Debug)]
pub enum DeploymentOpt {
    List { org: String, key: String, output: OutputFormat },
    Deploy { org: String, key: String, output: OutputFormat, command: DeployCommand, force: bool },
    Delete { org: String, key: String, id: u64 },
    Redeploy { org: String, key: String, id: Option<u64>, command: DeployCommand },
    Promote { org: String, key: String, id: Option<u64> },
    SyncStatus { org: String, key: String, id: u64, rolling: bool, interval: u64 },
}

#[derive(Debug)]
pub struct DeployCommand {
    pub branch: String,
    pub commit: Option<String>,
    pub endpoint: Option<String>,
    pub dict_endpoint: Option<String>,
    pub indexer_image_version: Option<String>,
    pub query_image_version: Option<String>,
    pub type_: DeploymentType,
    pub sub_folder: Option<String>,
    pub indexer_batch_size: u32,
}

#[derive(Debug)]
pub enum UserOpt {
    Info,
    Orgs,
}

#[derive(Debug)]
pub enum ProjectOpt {
    Create {
        org: String,
        key: String,
        name: Option<String>,
        subtitle: Option<String>,
        description: Option<String>,
        repo: String,
        hide: Option<bool>,
        check: bool,
    },
    Update {
        org: String,
        key: String,
        name: Option<String>,
        subtitle: Option<String>,
        description: Option<String>,
        hide: Option<bool>,
    },
    Delete { org: String, key: String },
    List { org: String, output: OutputFormat },
}

#[derive(Clone, Copy, Debug, PartialEq, Eq, Structural)]
pub enum OutputFormat {
    Json,
    Raw,
    Table,
}

impl OutputFormat {
    /// Decodes the output-format keyword.
    pub fn parse(s: &str) -> (r: Option<OutputFormat>)
        ensures
            (r == Some(OutputFormat::Json) <==> s@ == "json"@),
            (r == Some(OutputFormat::Raw) <==> s@ == "raw"@),
            (r == Some(OutputFormat::Table) <==> s@ == "table"@),
            (r is None <==> s@ != "json"@ && s@ != "raw"@ && s@ != "table"@),
    {
        proof {
            reveal_strlit("json");
            reveal_strlit("raw");
            reveal_strlit("table");
            assert("json"@.len() == 4);
            assert("raw"@.len() == 3);
            assert("raw"@ != "json"@);
        }
        if str_eq(s, "json") {
            Some(OutputFormat::Json)
        } else if str_eq(s, "raw") {
            Some(OutputFormat::Raw)
        } else if str_eq(s, "table") {
            Some(OutputFormat::Table)
        } else {
            None
        }
    }
}

impl DeploymentType {
    /// Decodes the deployment-type keyword.
    pub fn parse(s: &str) -> (r: Option<DeploymentType>)
        ensures
            (r == Some(DeploymentType::Primary) <==> s@ == "primary"@),
            (r == Some(DeploymentType::Stage) <==> s@ == "stage"@),
            (r is None <==> s@ != "primary"@ && s@ != "stage"@),
    {
        proof {
            reveal_strlit("primary");
            reveal_strlit("stage");
            assert("primary"@.len() == 7);
            assert("stage"@.len() == 5);
            assert("stage"@ != "primary"@);
        }
        if str_eq(s, "primary") {
            Some(DeploymentType::Primary)
        } else if str_eq(s, "stage") {
            Some(DeploymentType::Stage)
        } else {
            None
        }
    }

    /// The keyword of a deployment type.
    pub fn name(&self) -> (r: &'static str)
        ensures
            (*self == DeploymentType::Primary ==> r@ == "primary"@),
            (*self == DeploymentType::Stage ==> r@ == "stage"@),
    {
        match self {
            DeploymentType::Primary => "primary",
            DeploymentType::Stage => "stage",
        }
    }
}

} // verus!
