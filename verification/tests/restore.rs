use std::sync::Mutex;

use supabased::config::ProjectDatabaseConnection;
use supabased::restore::{
    escape_pgpass_field, next_command, no_workspace, pgpass_contents, restore_commands,
    restore_public_schema, restore_public_schema_with_runner, run_commands, CommandSpec,
    ProcessOutput, ProcessRunner, SystemProcessRunner, TRUNCATE_PUBLIC_SQL,
};
use supabased::runs::Runs;
use supabased::status::{Code, Status};

struct MockRunner {
    commands: Mutex<Vec<CommandSpec>>,
    fail_at: Option<usize>,
}

impl ProcessRunner for MockRunner {
    fn run(&self, command: &CommandSpec) -> Result<(), Status> {
        let mut commands = self.commands.lock().unwrap();
        if self.fail_at == Some(commands.len()) {
            return Err(Status::new(Code::Internal, "mock process failed"));
        }
        commands.push(command.clone());
        Ok(())
    }
}

fn conn(host: &str, password: &str) -> ProjectDatabaseConnection {
    ProjectDatabaseConnection {
        host: host.into(),
        port: 5432,
        database: "postgres".into(),
        user: "postgres".into(),
        password: password.into(),
    }
}

fn strings(command: &CommandSpec) -> (String, Vec<String>, Vec<(String, String)>) {
    (
        command.program.clone(),
        command.args.clone(),
        command.env.clone(),
    )
}

#[test]
fn restore_command_construction_uses_public_schema_only() {
    let commands = restore_commands(
        &conn("db.source.supabase.co", "source-secret"),
        &conn("db.target.supabase.co", "target-secret"),
        "/tmp/source.pgpass",
        "/tmp/target.pgpass",
        "/tmp/public.dump",
        "/tmp/public-data.sql",
        "/tmp/truncate-public.sql",
    );

    assert_eq!(commands.len(), 3);
    let (program, args, env) = strings(&commands[0]);
    assert_eq!(program, "pg_dump");
    assert!(args.contains(&"--format=custom".to_string()));
    assert!(args.contains(&"--data-only".to_string()));
    assert!(args.contains(&"--schema=public".to_string()));
    assert!(!args.iter().any(|arg| arg.contains("source-secret")));
    assert!(env.contains(&("PGHOST".to_string(), "db.source.supabase.co".to_string())));
    assert!(env.contains(&("PGPASSFILE".to_string(), "/tmp/source.pgpass".to_string())));
    assert!(!env.iter().any(|(_, value)| value.contains("source-secret")));

    let (program, args, env) = strings(&commands[1]);
    assert_eq!(program, "pg_restore");
    assert!(args.contains(&"--schema=public".to_string()));
    assert!(args.contains(&"/tmp/public.dump".to_string()));
    assert!(env.is_empty());

    let (program, args, env) = strings(&commands[2]);
    assert_eq!(program, "psql");
    assert!(!args.iter().any(|arg| arg.contains("target-secret")));
    assert!(args.contains(&"--single-transaction".to_string()));
    assert!(args.contains(&"ON_ERROR_STOP=1".to_string()));
    assert!(env.contains(&("PGHOST".to_string(), "db.target.supabase.co".to_string())));
    assert!(env.contains(&("PGPASSFILE".to_string(), "/tmp/target.pgpass".to_string())));
    assert!(env.contains(&("PGPORT".to_string(), "5432".to_string())));
    assert!(!env.iter().any(|(_, value)| value.contains("target-secret")));
}

#[test]
fn restore_runner_stops_after_process_failure() {
    let runner = MockRunner {
        commands: Mutex::new(Vec::new()),
        fail_at: Some(1),
    };

    let result = restore_public_schema_with_runner(
        &conn("db.source.supabase.co", "source-secret"),
        &conn("db.target.supabase.co", "target-secret"),
        "/tmp/restore",
        &mut Runs::new(&runner),
    );
    assert!(result.is_err());
    assert_eq!(runner.commands.lock().unwrap().len(), 1);
}

/// Notes every command, and refuses one of them.
struct NotingRunner {
    programs: Mutex<Vec<String>>,
    refused: usize,
}

impl ProcessRunner for NotingRunner {
    fn run(&self, command: &CommandSpec) -> Result<(), Status> {
        let mut programs = self.programs.lock().unwrap();
        programs.push(command.program.clone());
        if programs.len() == self.refused + 1 {
            return Err(Status::new(Code::Internal, "refused"));
        }
        Ok(())
    }
}

#[test]
fn nothing_is_run_after_a_refusal() {
    let programs = vec!["pg_dump", "pg_restore", "psql"];
    for refused in 0..4 {
        let runner = NotingRunner {
            programs: Mutex::new(Vec::new()),
            refused,
        };
        let result = restore_public_schema_with_runner(
            &conn("db.source.supabase.co", "source-secret"),
            &conn("db.target.supabase.co", "target-secret"),
            "/tmp/restore",
            &mut Runs::new(&runner),
        );
        assert_eq!(result.is_ok(), refused == 3);
        let run = if refused < 3 { refused + 1 } else { 3 };
        assert_eq!(*runner.programs.lock().unwrap(), programs[..run]);
    }
}

#[test]
fn next_command_goes_by_the_last_answer() {
    let plan = restore_public_schema(
        &conn("db.source.supabase.co", "source-secret"),
        &conn("db.target.supabase.co", "target-secret"),
        "/tmp/restore",
    );
    let next = next_command(&plan.commands, 1, Ok(())).unwrap().unwrap();
    assert_eq!(next.program, "pg_restore");
    assert!(next_command(&plan.commands, 3, Ok(())).unwrap().is_none());
    let refusal = Status::new(Code::Internal, "refused");
    let err = next_command(&plan.commands, 1, Err(refusal)).unwrap_err();
    assert_eq!(err.message(), "refused");
    let runner = NotingRunner {
        programs: Mutex::new(Vec::new()),
        refused: 0,
    };
    assert!(run_commands(&vec![], &mut Runs::new(&runner)).is_ok());
    assert!(runner.programs.lock().unwrap().is_empty());
}

#[test]
fn restore_runner_runs_the_plan_to_its_end() {
    let runner = MockRunner {
        commands: Mutex::new(Vec::new()),
        fail_at: None,
    };
    let source = conn("db.source.supabase.co", "source-secret");
    let target = conn("db.target.supabase.co", "target-secret");
    restore_public_schema_with_runner(&source, &target, "/tmp/restore", &mut Runs::new(&runner)).unwrap();
    let plan = restore_public_schema(&source, &target, "/tmp/restore");
    assert_eq!(*runner.commands.lock().unwrap(), plan.commands);
}

#[test]
fn pgpass_fields_are_escaped() {
    assert_eq!(escape_pgpass_field(r"a:b\c"), r"a\:b\\c");
}

fn fields(line: &str) -> Vec<String> {
    let mut fields = vec![String::new()];
    let mut chars = line.trim_end_matches('\n').chars();
    while let Some(c) = chars.next() {
        match c {
            ':' => fields.push(String::new()),
            '\\' => fields.last_mut().unwrap().push(chars.next().unwrap()),
            c => fields.last_mut().unwrap().push(c),
        }
    }
    fields
}

#[test]
fn a_password_file_reads_back() {
    let line = pgpass_contents(&conn("db.x.supabase.co", r"p:\a::s\\s"));
    assert!(line.ends_with('\n'));
    assert_eq!(
        fields(&line),
        vec!["db.x.supabase.co", "5432", "postgres", "postgres", r"p:\a::s\\s"]
    );
}

#[test]
fn passwords_are_in_private_files_alone() {
    let plan = restore_public_schema(
        &conn("db.source.supabase.co", "source-secret"),
        &conn("db.target.supabase.co", "target-secret"),
        "/tmp/restore",
    );
    let paths: Vec<&str> = plan.files.iter().map(|f| f.path.as_str()).collect();
    assert_eq!(
        paths,
        vec![
            "/tmp/restore/truncate-public.sql",
            "/tmp/restore/source.pgpass",
            "/tmp/restore/target.pgpass",
        ]
    );
    assert_eq!(plan.files[0].contents, TRUNCATE_PUBLIC_SQL);
    assert!(!plan.files[0].private);
    assert!(plan.files[1].private && plan.files[2].private);
    assert!(plan.files[1].contents.contains("source-secret"));
    assert!(plan.files[2].contents.contains("target-secret"));
    let other = restore_public_schema(
        &conn("db.source.supabase.co", "a"),
        &conn("db.target.supabase.co", "b"),
        "/tmp/restore",
    );
    assert_eq!(plan.commands, other.commands);
    assert_eq!(
        plan.files[1].not_written("disk full").message(),
        "failed to write source passfile: disk full"
    );
    assert_eq!(
        no_workspace("disk full").message(),
        "failed to create restore workspace: disk full"
    );
}

#[test]
fn programs_are_judged_by_their_end() {
    let command = CommandSpec {
        program: "psql".to_string(),
        args: vec![],
        env: vec![],
    };
    let ended = |success: bool, stderr: &str| ProcessOutput::Ended {
        success,
        status_text: "exit status: 3".to_string(),
        stderr: stderr.to_string(),
    };
    let judge = |output: ProcessOutput| SystemProcessRunner.outcome(&command, output);
    assert!(judge(ended(true, "noise")).is_ok());
    assert_eq!(
        judge(ended(false, " \n")).unwrap_err().message(),
        "psql failed with exit status exit status: 3"
    );
    assert_eq!(
        judge(ended(false, " bad SQL\n")).unwrap_err().message(),
        "psql failed with exit status exit status: 3: bad SQL"
    );
    let err = judge(ProcessOutput::NotStarted("not found".to_string())).unwrap_err();
    assert_eq!(err.code(), Code::Internal);
    assert_eq!(err.message(), "failed to run psql: not found");
}
