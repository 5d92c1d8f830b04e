//! Configuration data for one backup run: the per-database credentials, the
//! run-wide directories, and the closed set of supported database engines.

use vstd::prelude::*;
use vstd::string::*;

verus! {

/// Identifies one database inside one running container.
pub struct ProfugoContainersConfig {
    pub container_name: String,
    pub engine: String,
    pub db_name: String,
    pub user: String,
    pub password: String,
}

/// Mathematical model of a credential: each text field as a sequence of
/// characters.
pub struct CredentialModel {
    pub container_name: Seq<char>,
    pub engine: Seq<char>,
    pub db_name: Seq<char>,
    pub user: Seq<char>,
    pub password: Seq<char>,
}

impl View for ProfugoContainersConfig {
    type V = CredentialModel;

    open spec fn view(&self) -> CredentialModel {
        CredentialModel {
            container_name: self.container_name@,
            engine: self.engine@,
            db_name: self.db_name@,
            user: self.user@,
            password: self.password@,
        }
    }
}

/// The whole run configuration: the credential list in processing order and
/// the directories for dump output and for the failure log.
pub struct ProfugoConfig {
    pub credentials: Vec<ProfugoContainersConfig>,
    pub output_dir: String,
    pub log_dir: String,
}

/// Mathematical model of a run configuration.
pub struct ConfigModel {
    pub credentials: Seq<CredentialModel>,
    pub output_dir: Seq<char>,
    pub log_dir: Seq<char>,
}

impl View for ProfugoConfig {
    type V = ConfigModel;

    open spec fn view(&self) -> ConfigModel {
        ConfigModel {
            credentials: Seq::new(self.credentials@.len(), |i: int| self.credentials@[i]@),
            output_dir: self.output_dir@,
            log_dir: self.log_dir@,
        }
    }
}

/// The supported database engines. Any other engine identifier is an
/// "unknown engine" condition, which skips the credential without aborting
/// the run.
#[derive(Clone, Copy, PartialEq, Eq, Structural, Debug)]
pub enum DBEngine {
    Postgres,
    MySQL,
}

/// Which engine, if any, an engine identifier resolves to: an exact,
/// case-sensitive match against "postgres" or "mysql".
pub open spec fn spec_resolve_engine(engine: Seq<char>) -> Option<DBEngine> {
    if engine == "postgres"@ {
        Some(DBEngine::Postgres)
    } else if engine == "mysql"@ {
        Some(DBEngine::MySQL)
    } else {
        None
    }
}

/// Character-by-character equality of two string slices.
pub fn str_eq(a: &str, b: &str) -> (r: bool)
    ensures
        r == (a@ == b@),
{
    let a_len = a.unicode_len();
    let b_len = b.unicode_len();
    if a_len != b_len {
        proof {
            assert(a@.len() != b@.len());
        }
        return false;
    }
    let mut i: usize = 0;
    while i < a_len
        invariant
            a_len == a@.len(),
            b_len == b@.len(),
            a_len == b_len,
            i <= a_len,
            forall|j: int| 0 <= j < i ==> a@[j] == b@[j],
        decreases a_len - i,
    {
        if a.get_char(i) != b.get_char(i) {
            proof {
                assert(a@[i as int] != b@[i as int]);
            }
            return false;
        }
        i += 1;
    }
    proof {
        assert(a@ =~= b@);
    }
    true
}

impl DBEngine {
    /// Resolves an engine identifier to its engine, or `None` for an unknown
    /// engine.
    pub fn from_str(engine: &str) -> (r: Option<DBEngine>)
        ensures
            r == spec_resolve_engine(engine@),
    {
        if str_eq(engine, "postgres") {
            Some(DBEngine::Postgres)
        } else if str_eq(engine, "mysql") {
            Some(DBEngine::MySQL)
        } else {
            None
        }
    }
}

} // verus!
