use profugo::command::dump_command;
use profugo::types::{DBEngine, ProfugoContainersConfig};

fn cred(engine: &str, container: &str, db: &str, user: &str, password: &str) -> ProfugoContainersConfig {
    ProfugoContainersConfig {
        container_name: container.to_string(),
        engine: engine.to_string(),
        db_name: db.to_string(),
        user: user.to_string(),
        password: password.to_string(),
    }
}

#[test]
fn postgres_command_shape() {
    let c = cred("postgres", "pg1", "app", "u", "ignored");
    let cmd = dump_command(DBEngine::Postgres, &c);
    assert_eq!(cmd.program, "docker");
    assert_eq!(cmd.args, vec!["exec", "pg1", "pg_dump", "-U", "u", "app"]);
}

#[test]
fn postgres_command_passes_no_password() {
    let c = cred("postgres", "pg1", "app", "u", "secret");
    let cmd = dump_command(DBEngine::Postgres, &c);
    assert!(cmd.args.iter().all(|a| !a.contains("secret")));
}

#[test]
fn mysql_command_shape() {
    let c = cred("mysql", "db1", "shop", "root", "secret");
    let cmd = dump_command(DBEngine::MySQL, &c);
    assert_eq!(cmd.program, "docker");
    assert_eq!(
        cmd.args,
        vec!["exec", "db1", "mysqldump", "-u", "root", "-psecret", "shop"]
    );
}

#[test]
fn mysql_password_is_one_token() {
    let c = cred("mysql", "db1", "shop", "root", "secret");
    let cmd = dump_command(DBEngine::MySQL, &c);
    assert_eq!(cmd.args[5], "-psecret");
    assert!(!cmd.args.contains(&"secret".to_string()));
    assert!(!cmd.args.contains(&"-p".to_string()));
}
