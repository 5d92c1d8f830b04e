//! The engine-specific dump commands: for each supported engine, the exact
//! program and argument list that dumps one database inside its container.

use vstd::prelude::*;
use vstd::string::*;
use crate::types::{CredentialModel, DBEngine, ProfugoContainersConfig};

verus! {

/// One external command: the program to spawn and its arguments, in order.
pub struct DumpCommand {
    pub program: String,
    pub args: Vec<String>,
}

/// Mathematical model of a command: the program and each argument as a
/// sequence of characters.
#[verifier::ext_equal]
pub struct CommandModel {
    pub program: Seq<char>,
    pub args: Seq<Seq<char>>,
}

impl View for DumpCommand {
    type V = CommandModel;

    open spec fn view(&self) -> CommandModel {
        CommandModel {
            program: self.program@,
            args: Seq::new(self.args@.len(), |i: int| self.args@[i]@),
        }
    }
}

/// The arguments of a Postgres dump: run `pg_dump -U <user> <db>` inside the
/// container. No password argument is passed for this engine; the in-container
/// utility authenticates by its own mechanism.
pub open spec fn spec_postgres_args(cred: CredentialModel) -> Seq<Seq<char>> {
    seq!["exec"@, cred.container_name, "pg_dump"@, "-U"@, cred.user, cred.db_name]
}

/// The arguments of a MySQL dump: run `mysqldump -u <user> -p<password> <db>`
/// inside the container, the password concatenated into a single flag token.
pub open spec fn spec_mysql_args(cred: CredentialModel) -> Seq<Seq<char>> {
    seq![
        "exec"@,
        cred.container_name,
        "mysqldump"@,
        "-u"@,
        cred.user,
        "-p"@ + cred.password,
        cred.db_name,
    ]
}

/// The dump command for one credential under one resolved engine.
pub open spec fn spec_dump_command(engine: DBEngine, cred: CredentialModel) -> CommandModel {
    CommandModel {
        program: "docker"@,
        args: match engine {
            DBEngine::Postgres => spec_postgres_args(cred),
            DBEngine::MySQL => spec_mysql_args(cred),
        },
    }
}

/// Builds the dump command for one credential under one resolved engine.
pub fn dump_command(engine: DBEngine, cred: &ProfugoContainersConfig) -> (r: DumpCommand)
    ensures
        r@ == spec_dump_command(engine, cred@),
{
    let mut args: Vec<String> = Vec::new();
    args.push(String::from_str("exec"));
    args.push(cred.container_name.clone());
    match engine {
        DBEngine::Postgres => {
            args.push(String::from_str("pg_dump"));
            args.push(String::from_str("-U"));
            args.push(cred.user.clone());
            args.push(cred.db_name.clone());
        },
        DBEngine::MySQL => {
            args.push(String::from_str("mysqldump"));
            args.push(String::from_str("-u"));
            args.push(cred.user.clone());
            let mut password_flag = String::from_str("-p");
            password_flag.append(cred.password.as_str());
            args.push(password_flag);
            args.push(cred.db_name.clone());
        },
    }
    let r = DumpCommand { program: String::from_str("docker"), args };
    proof {
        assert(r@.args =~= spec_dump_command(engine, cred@).args);
        assert(r@ =~= spec_dump_command(engine, cred@));
    }
    r
}

} // verus!
