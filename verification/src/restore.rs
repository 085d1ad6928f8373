//! Putting the data of a demo state back: which programs run, with what.

use vstd::prelude::*;

use crate::config::{ConnectionView, ProjectDatabaseConnection};
use crate::http::pair;
use crate::runs::Runs;
use crate::status::{Code, Status, StatusView};
use crate::text::{chars_of, decimal_text, path_in, trim};
use crate::{http, runs, status, text};

verus! {

/// The SQL that empties every table of the public schema.
pub const TRUNCATE_PUBLIC_SQL: &'static str = "
DO $$
DECLARE
    r record;
BEGIN
    FOR r IN
        SELECT quote_ident(schemaname) || '.' || quote_ident(tablename) AS full_name
        FROM pg_tables
        WHERE schemaname = 'public'
    LOOP
        EXECUTE 'TRUNCATE TABLE ' || r.full_name || ' RESTART IDENTITY CASCADE';
    END LOOP;
END $$;
";

/// A program that is to run, with its arguments and with variables for its environment.
#[derive(Clone, Debug, PartialEq, Eq)]
pub struct CommandSpec {
    pub program: String,
    pub args: Vec<String>,
    pub env: Vec<(String, String)>,
}

#[verifier::ext_equal]
pub struct CommandView {
    pub program: Seq<char>,
    pub args: Seq<Seq<char>>,
    pub env: Seq<(Seq<char>, Seq<char>)>,
}

impl View for CommandSpec {
    type V = CommandView;

    open spec fn view(&self) -> CommandView {
        CommandView {
            program: self.program@,
            args: text::texts(self.args@),
            env: http::pairs(self.env@),
        }
    }
}

/// The commands of a list.
pub open spec fn command_views(commands: Seq<CommandSpec>) -> Seq<CommandView> {
    commands.map_values(|c: CommandSpec| c@)
}

/// Runs programs.
pub trait ProcessRunner {
    /// Runs the program to its end, and refuses where it does not succeed.
    fn run(&self, command: &CommandSpec) -> (r: Result<(), Status>);
}

/// What became of a program of the operating system.
#[derive(Clone, Debug)]
pub enum ProcessOutput {
    /// The program could not be started; the text says why.
    NotStarted(String),
    /// The program has ended, with this status and this text on its error output.
    Ended { success: bool, status_text: String, stderr: String },
}

/// Judges the programs of the operating system.
#[derive(Clone, Copy, Debug)]
pub struct SystemProcessRunner;

/// What became of `program` amounts to success or to this refusal.
pub open spec fn process_result(program: Seq<char>, output: ProcessOutput) -> Result<
    (),
    StatusView,
> {
    match output {
        ProcessOutput::NotStarted(error) => Err(
            status::refusal(Code::Internal, "failed to run "@ + program + ": "@ + error@),
        ),
        ProcessOutput::Ended { success, status_text, stderr } => if success {
            Ok(())
        } else if text::trimmed(stderr@).len() == 0 {
            Err(
                status::refusal(
                    Code::Internal,
                    program + " failed with exit status "@ + status_text@,
                ),
            )
        } else {
            Err(
                status::refusal(
                    Code::Internal,
                    program + " failed with exit status "@ + status_text@ + ": "@ + text::trimmed(
                        stderr@,
                    ),
                ),
            )
        },
    }
}

impl SystemProcessRunner {
    /// Refuses where the program has not succeeded.
    pub fn outcome(&self, command: &CommandSpec, output: ProcessOutput) -> (r: Result<(), Status>)
        ensures
            status::outcome(r) == process_result(command@.program, output),
    {
        match output {
            ProcessOutput::NotStarted(error) => {
                let mut message = "failed to run ".to_string();
                message.append(command.program.as_str());
                message.append(": ");
                message.append(error.as_str());
                Err(Status { code: Code::Internal, message })
            },
            ProcessOutput::Ended { success, status_text, stderr } => {
                if success {
                    return Ok(());
                }
                let stderr = trim(stderr.as_str());
                let mut message = command.program.clone();
                message.append(" failed with exit status ");
                message.append(status_text.as_str());
                if !stderr.as_str().is_empty() {
                    message.append(": ");
                    message.append(stderr.as_str());
                }
                Err(Status { code: Code::Internal, message })
            },
        }
    }
}

/// The field with a backslash before each backslash and each colon.
pub open spec fn escaped(s: Seq<char>) -> Seq<char>
    decreases s.len(),
{
    if s.len() == 0 {
        Seq::empty()
    } else if s.last() == '\\' || s.last() == ':' {
        escaped(s.drop_last()).push('\\').push(s.last())
    } else {
        escaped(s.drop_last()).push(s.last())
    }
}

/// The field as it stands in a password file.
pub fn escape_pgpass_field(value: &str) -> (r: String)
    ensures
        r@ == escaped(value@),
{
    let chars = chars_of(value);
    let mut out = String::new();
    let mut i: usize = 0;
    while i < chars.len()
        invariant
            i <= chars.len(),
            out@ == escaped(chars@.take(i as int)),
        decreases chars.len() - i,
    {
        assert(chars@.take(i + 1).drop_last() =~= chars@.take(i as int));
        let c = chars[i];
        if c == '\\' || c == ':' {
            out.push('\\');
        }
        out.push(c);
        i += 1;
    }
    assert(chars@.take(i as int) =~= chars@);
    out
}

/// The password file for a connection.
pub open spec fn pgpass_line(connection: ConnectionView) -> Seq<char> {
    escaped(connection.host) + ":"@ + text::decimal(connection.port as nat) + ":"@ + escaped(
        connection.database,
    ) + ":"@ + escaped(connection.user) + ":"@ + escaped(connection.password) + "\n"@
}

/// The password file for a connection.
pub fn pgpass_contents(connection: &ProjectDatabaseConnection) -> (r: String)
    ensures
        r@ == pgpass_line(connection@),
{
    let mut line = escape_pgpass_field(connection.host.as_str());
    line.append(":");
    line.append(decimal_text(connection.port as u64).as_str());
    line.append(":");
    line.append(escape_pgpass_field(connection.database.as_str()).as_str());
    line.append(":");
    line.append(escape_pgpass_field(connection.user.as_str()).as_str());
    line.append(":");
    line.append(escape_pgpass_field(connection.password.as_str()).as_str());
    line.append("\n");
    line
}

/// The variables by which the programs of PostgreSQL reach the database; the password is in
/// a file that they name.
pub open spec fn connection_variables(connection: ConnectionView, passfile: Seq<char>) -> Seq<
    (Seq<char>, Seq<char>),
> {
    seq![
        ("PGHOST"@, connection.host),
        ("PGPORT"@, text::decimal(connection.port as nat)),
        ("PGDATABASE"@, connection.database),
        ("PGUSER"@, connection.user),
        ("PGPASSFILE"@, passfile),
    ]
}

/// The variables by which the programs of PostgreSQL reach the database.
pub fn connection_env(connection: &ProjectDatabaseConnection, passfile_path: &str) -> (r: Vec<
    (String, String),
>)
    ensures
        http::pairs(r@) == connection_variables(connection@, passfile_path@),
{
    let port = decimal_text(connection.port as u64);
    let r = vec![
        pair("PGHOST", connection.host.as_str()),
        pair("PGPORT", port.as_str()),
        pair("PGDATABASE", connection.database.as_str()),
        pair("PGUSER", connection.user.as_str()),
        pair("PGPASSFILE", passfile_path),
    ];
    assert(http::pairs(r@) =~= connection_variables(connection@, passfile_path@));
    r
}

/// The program that writes the data of the source to a file.
pub open spec fn dump_command(
    source: ConnectionView,
    passfile: Seq<char>,
    dump: Seq<char>,
) -> CommandView {
    CommandView {
        program: "pg_dump"@,
        args: seq![
            "--format=custom"@,
            "--data-only"@,
            "--schema=public"@,
            "--no-owner"@,
            "--no-privileges"@,
            "--file"@,
            dump,
        ],
        env: connection_variables(source, passfile),
    }
}

/// The program that makes SQL of that file.
pub open spec fn render_command(restore_sql: Seq<char>, dump: Seq<char>) -> CommandView {
    CommandView {
        program: "pg_restore"@,
        args: seq![
            "--data-only"@,
            "--schema=public"@,
            "--no-owner"@,
            "--no-privileges"@,
            "--file"@,
            restore_sql,
            dump,
        ],
        env: Seq::empty(),
    }
}

/// The program that empties the target and fills it by that SQL, both or neither.
pub open spec fn load_command(
    target: ConnectionView,
    passfile: Seq<char>,
    truncate_sql: Seq<char>,
    restore_sql: Seq<char>,
) -> CommandView {
    CommandView {
        program: "psql"@,
        args: seq![
            "-v"@,
            "ON_ERROR_STOP=1"@,
            "--single-transaction"@,
            "-f"@,
            truncate_sql,
            "-f"@,
            restore_sql,
        ],
        env: connection_variables(target, passfile),
    }
}

/// The programs that put the data of the source into the target, in order.
pub open spec fn restore_steps(
    source: ConnectionView,
    target: ConnectionView,
    source_passfile: Seq<char>,
    target_passfile: Seq<char>,
    dump: Seq<char>,
    restore_sql: Seq<char>,
    truncate_sql: Seq<char>,
) -> Seq<CommandView> {
    seq![
        dump_command(source, source_passfile, dump),
        render_command(restore_sql, dump),
        load_command(target, target_passfile, truncate_sql, restore_sql),
    ]
}

fn owned(words: &[&str]) -> (r: Vec<String>)
    ensures
        text::texts(r@) == words@.map_values(|w: &str| w@),
{
    let ghost all = words@.map_values(|w: &str| w@);
    let mut out: Vec<String> = Vec::new();
    let mut i: usize = 0;
    while i < words.len()
        invariant
            i <= words.len(),
            all == words@.map_values(|w: &str| w@),
            text::texts(out@) == all.take(i as int),
        decreases words.len() - i,
    {
        let ghost before = out@;
        out.push(words[i].to_string());
        assert(text::texts(out@) =~= text::texts(before).push(all[i as int]));
        assert(all.take(i + 1) =~= all.take(i as int).push(all[i as int]));
        i += 1;
    }
    assert(all.take(i as int) =~= all);
    out
}

/// The programs that put the data of the source into the target, in order.
pub fn restore_commands(
    source: &ProjectDatabaseConnection,
    target: &ProjectDatabaseConnection,
    source_passfile_path: &str,
    target_passfile_path: &str,
    dump_path: &str,
    restore_sql_path: &str,
    truncate_sql_path: &str,
) -> (r: Vec<CommandSpec>)
    ensures
        command_views(r@) == restore_steps(
            source@,
            target@,
            source_passfile_path@,
            target_passfile_path@,
            dump_path@,
            restore_sql_path@,
            truncate_sql_path@,
        ),
{
    let dump = CommandSpec {
        program: "pg_dump".to_string(),
        args: owned(
            &[
                "--format=custom",
                "--data-only",
                "--schema=public",
                "--no-owner",
                "--no-privileges",
                "--file",
                dump_path,
            ],
        ),
        env: connection_env(source, source_passfile_path),
    };
    assert(dump@ =~= dump_command(source@, source_passfile_path@, dump_path@));
    let render = CommandSpec {
        program: "pg_restore".to_string(),
        args: owned(
            &[
                "--data-only",
                "--schema=public",
                "--no-owner",
                "--no-privileges",
                "--file",
                restore_sql_path,
                dump_path,
            ],
        ),
        env: Vec::new(),
    };
    assert(render@ =~= render_command(restore_sql_path@, dump_path@));
    let load = CommandSpec {
        program: "psql".to_string(),
        args: owned(
            &[
                "-v",
                "ON_ERROR_STOP=1",
                "--single-transaction",
                "-f",
                truncate_sql_path,
                "-f",
                restore_sql_path,
            ],
        ),
        env: connection_env(target, target_passfile_path),
    };
    assert(load@ =~= load_command(
        target@,
        target_passfile_path@,
        truncate_sql_path@,
        restore_sql_path@,
    ));
    let commands = vec![dump, render, load];
    assert(command_views(commands@) =~= restore_steps(
        source@,
        target@,
        source_passfile_path@,
        target_passfile_path@,
        dump_path@,
        restore_sql_path@,
        truncate_sql_path@,
    ));
    commands
}

/// A file that the programs need, and what is said where it cannot be written.
#[derive(Clone, Debug)]
pub struct WorkspaceFile {
    pub path: String,
    pub contents: String,
    /// Whether only its owner may read it.
    pub private: bool,
    pub failure: String,
}

pub struct WorkspaceFileView {
    pub path: Seq<char>,
    pub contents: Seq<char>,
    pub private: bool,
    pub failure: Seq<char>,
}

impl View for WorkspaceFile {
    type V = WorkspaceFileView;

    open spec fn view(&self) -> WorkspaceFileView {
        WorkspaceFileView {
            path: self.path@,
            contents: self.contents@,
            private: self.private,
            failure: self.failure@,
        }
    }
}

impl WorkspaceFile {
    /// The refusal where the file cannot be written.
    pub fn not_written(&self, error: &str) -> (r: Status)
        ensures
            r@ == status::refusal(Code::Internal, self@.failure + error@),
    {
        Status::with_detail(Code::Internal, self.failure.as_str(), error)
    }
}

/// The files of a list.
pub open spec fn file_views(files: Seq<WorkspaceFile>) -> Seq<WorkspaceFileView> {
    files.map_values(|f: WorkspaceFile| f@)
}

/// What is written and then run to put the data of the source into the target.
#[derive(Clone, Debug)]
pub struct RestorePlan {
    pub files: Vec<WorkspaceFile>,
    pub commands: Vec<CommandSpec>,
}

/// The files that the programs need.
pub open spec fn planned_files(
    source: ConnectionView,
    target: ConnectionView,
    directory: Seq<char>,
) -> Seq<WorkspaceFileView> {
    seq![
        WorkspaceFileView {
            path: text::path_within(directory, "truncate-public.sql"@),
            contents: TRUNCATE_PUBLIC_SQL@,
            private: false,
            failure: "failed to write restore SQL: "@,
        },
        WorkspaceFileView {
            path: text::path_within(directory, "source.pgpass"@),
            contents: pgpass_line(source),
            private: true,
            failure: "failed to write source passfile: "@,
        },
        WorkspaceFileView {
            path: text::path_within(directory, "target.pgpass"@),
            contents: pgpass_line(target),
            private: true,
            failure: "failed to write target passfile: "@,
        },
    ]
}

/// The programs that run in the directory.
pub open spec fn planned_commands(
    source: ConnectionView,
    target: ConnectionView,
    directory: Seq<char>,
) -> Seq<CommandView> {
    restore_steps(
        source,
        target,
        text::path_within(directory, "source.pgpass"@),
        text::path_within(directory, "target.pgpass"@),
        text::path_within(directory, "public.dump"@),
        text::path_within(directory, "public-data.sql"@),
        text::path_within(directory, "truncate-public.sql"@),
    )
}

/// What is written and then run, in the directory, to put the data of the source into the
/// target.
pub fn restore_public_schema(
    source: &ProjectDatabaseConnection,
    target: &ProjectDatabaseConnection,
    directory: &str,
) -> (r: RestorePlan)
    ensures
        file_views(r.files@) == planned_files(source@, target@, directory@),
        command_views(r.commands@) == planned_commands(source@, target@, directory@),
{
    let source_passfile_path = path_in(directory, "source.pgpass");
    let target_passfile_path = path_in(directory, "target.pgpass");
    let truncate_sql_path = path_in(directory, "truncate-public.sql");
    let commands = restore_commands(
        source,
        target,
        source_passfile_path.as_str(),
        target_passfile_path.as_str(),
        path_in(directory, "public.dump").as_str(),
        path_in(directory, "public-data.sql").as_str(),
        truncate_sql_path.as_str(),
    );
    let files = vec![
        WorkspaceFile {
            path: truncate_sql_path,
            contents: TRUNCATE_PUBLIC_SQL.to_string(),
            private: false,
            failure: "failed to write restore SQL: ".to_string(),
        },
        WorkspaceFile {
            path: source_passfile_path,
            contents: pgpass_contents(source),
            private: true,
            failure: "failed to write source passfile: ".to_string(),
        },
        WorkspaceFile {
            path: target_passfile_path,
            contents: pgpass_contents(target),
            private: true,
            failure: "failed to write target passfile: ".to_string(),
        },
    ];
    assert(file_views(files@) =~= planned_files(source@, target@, directory@));
    RestorePlan { files, commands }
}

/// The refusal where no directory can be made for the files.
pub fn no_workspace(error: &str) -> (r: Status)
    ensures
        r@ == status::refusal(Code::Internal, "failed to create restore workspace: "@ + error@),
{
    Status::with_detail(Code::Internal, "failed to create restore workspace: ", error)
}

/// The runs of commands that were all carried out.
pub open spec fn carried_out(commands: Seq<CommandView>) -> Seq<runs::RunView> {
    commands.map_values(|c: CommandView| runs::RunView { command: c, refusal: None })
}

/// Whether `runs` are the commands in order, each once: all of them carried out where there is
/// no refusal, and otherwise those up to and including the first that was refused, and no more.
pub open spec fn runs_through(
    commands: Seq<CommandView>,
    runs: Seq<runs::RunView>,
    refusal: Option<StatusView>,
) -> bool {
    match refusal {
        None => runs == carried_out(commands),
        Some(_) => {
            &&& 0 < runs.len() <= commands.len()
            &&& runs == carried_out(commands.take(runs.len() - 1)).push(
                runs::RunView { command: commands[runs.len() - 1], refusal },
            )
        },
    }
}

/// Whether the commands were run, in the sense of `runs_through`, between one state of a
/// runner's history and a later one.
pub open spec fn ran_through(
    before: Seq<runs::RunView>,
    after: Seq<runs::RunView>,
    commands: Seq<CommandView>,
    refusal: Option<StatusView>,
) -> bool {
    &&& before.len() <= after.len()
    &&& after.take(before.len() as int) == before
    &&& runs_through(commands, after.skip(before.len() as int), refusal)
}

/// The command to be run once `done` of them were run and the last was answered with `last`:
/// none once all are done, and none after a refusal, which is handed on.
pub fn next_command(commands: &Vec<CommandSpec>, done: usize, last: Result<(), Status>) -> (r:
    Result<Option<&CommandSpec>, Status>)
    ensures
        match last {
            Err(status) => r matches Err(refusal) && refusal@ == status@,
            Ok(_) => if done < commands@.len() {
                r matches Ok(Some(next)) && *next == commands@[done as int]
            } else {
                r matches Ok(None)
            },
        },
{
    match last {
        Err(status) => Err(status),
        Ok(()) => if done < commands.len() {
            Ok(Some(&commands[done]))
        } else {
            Ok(None)
        },
    }
}

/// Runs the commands one after the other, and stops at the first that the runner refuses.
pub fn run_commands<R: ProcessRunner>(commands: &Vec<CommandSpec>, runner: &mut Runs<R>) -> (r:
    Result<(), Status>)
    requires
        old(runner).wf(),
    ensures
        final(runner).wf(),
        final(runner).runner() == old(runner).runner(),
        ran_through(
            old(runner).history(),
            final(runner).history(),
            command_views(commands@),
            runs::refusal_in(r),
        ),
{
    let ghost before = runner.history();
    let ghost views = command_views(commands@);
    let mut done: usize = 0;
    let mut last: Result<(), Status> = Ok(());
    assert(before + carried_out(views.take(0)) =~= before);
    loop
        invariant
            done <= commands.len(),
            before == old(runner).history(),
            runner.wf(),
            runner.runner() == old(runner).runner(),
            views == command_views(commands@),
            last is Ok ==> runner.history() == before + carried_out(views.take(done as int)),
            last is Err ==> done > 0 && runner.history() == before + carried_out(
                views.take(done - 1),
            ).push(runs::run_of(views[done - 1], last)),
        decreases commands.len() - done,
    {
        let ghost answered = last;
        let ghost history = runner.history();
        match next_command(commands, done, last) {
            Err(status) => {
                proof {
                    let runs = history.skip(before.len() as int);
                    assert(history.take(before.len() as int) =~= before);
                    assert(runs =~= carried_out(views.take(done - 1)).push(
                        runs::run_of(views[done - 1], answered),
                    ));
                    assert(runs.len() == done);
                }
                return Err(status);
            },
            Ok(None) => {
                proof {
                    assert(views.take(done as int) =~= views);
                    assert(history.take(before.len() as int) =~= before);
                    assert(history.skip(before.len() as int) =~= carried_out(views));
                }
                return Ok(());
            },
            Ok(Some(command)) => {
                last = runner.run(command);
                proof {
                    let run = runs::run_of(views[done as int], last);
                    assert(runner.history() =~= before + carried_out(views.take(done as int)).push(
                        run,
                    ));
                    if last is Ok {
                        assert(carried_out(views.take(done + 1)) =~= carried_out(
                            views.take(done as int),
                        ).push(run));
                    }
                }
                done += 1;
            },
        }
    }
}

/// Puts the data of the source into the target, in a directory that holds the files of the
/// plan: runs the commands of the plan in order, up to the first that is refused.
pub fn restore_public_schema_with_runner<R: ProcessRunner>(
    source: &ProjectDatabaseConnection,
    target: &ProjectDatabaseConnection,
    directory: &str,
    runner: &mut Runs<R>,
) -> (r: Result<(), Status>)
    requires
        old(runner).wf(),
    ensures
        final(runner).wf(),
        final(runner).runner() == old(runner).runner(),
        ran_through(
            old(runner).history(),
            final(runner).history(),
            planned_commands(source@, target@, directory@),
            runs::refusal_in(r),
        ),
{
    let plan = restore_public_schema(source, target, directory);
    run_commands(&plan.commands, runner)
}

/// A restore runs `pg_dump`, `pg_restore` and `psql` in this order, each at most once, and none
/// after one that was refused: `psql`, which alone is told of the target (the others would be the
/// same for any other), runs only once the others have succeeded. The restore succeeds exactly where all three do, and is otherwise
/// refused as the last that was run.
pub proof fn law_restore_stops_at_the_first_refusal(
    source: ConnectionView,
    target: ConnectionView,
    directory: Seq<char>,
    runs: Seq<runs::RunView>,
    refusal: Option<StatusView>,
    other: ConnectionView,
)
    requires
        runs_through(planned_commands(source, target, directory), runs, refusal),
    ensures
        runs[0].command == planned_commands(source, other, directory)[0],
        runs.len() > 1 ==> runs[1].command == planned_commands(source, other, directory)[1],
        1 <= runs.len() <= 3,
        runs[0].command.program == "pg_dump"@,
        runs.len() > 1 ==> runs[1].command.program == "pg_restore"@,
        runs.len() > 2 ==> runs[2].command.program == "psql"@,
        forall|i: int| 0 <= i < runs.len() - 1 ==> (#[trigger] runs[i]).refusal is None,
        runs.last().refusal == refusal,
        refusal is None ==> runs.len() == 3,
{
    let commands = planned_commands(source, target, directory);
    assert(commands.len() == 3);
}

/// Where a program of the operating system fails, the restore is refused as an internal failure.
pub proof fn law_failed_program_is_an_internal_failure(
    commands: Seq<CommandView>,
    runs: Seq<runs::RunView>,
    refusal: StatusView,
    output: ProcessOutput,
)
    requires
        runs_through(commands, runs, Some(refusal)),
        process_result(runs.last().command.program, output) == Err::<(), StatusView>(
            runs.last().refusal->0,
        ),
    ensures
        refusal.code == Code::Internal,
{
}

/// The first field of a line of a password file, and what follows the colon behind it; a
/// backslash takes the meaning from the character that it stands before.
pub open spec fn first_field(line: Seq<char>) -> (Seq<char>, Seq<char>)
    decreases line.len(),
{
    if line.len() == 0 {
        (Seq::empty(), Seq::empty())
    } else if line[0] == ':' {
        (Seq::empty(), line.skip(1))
    } else if line[0] == '\\' && line.len() > 1 {
        let more = first_field(line.skip(2));
        (seq![line[1]] + more.0, more.1)
    } else {
        let more = first_field(line.skip(1));
        (seq![line[0]] + more.0, more.1)
    }
}

proof fn lemma_escaped_front(s: Seq<char>)
    requires
        s.len() > 0,
    ensures
        escaped(s) == escaped(seq![s[0]]) + escaped(s.skip(1)),
    decreases s.len(),
{
    reveal_with_fuel(escaped, 2);
    if s.len() == 1 {
        assert(s =~= seq![s[0]]);
        assert(s.skip(1) =~= Seq::empty());
    } else {
        let before = s.drop_last();
        lemma_escaped_front(before);
        assert(before.skip(1) =~= s.skip(1).drop_last());
        assert(s.skip(1).last() == s.last());
        assert(escaped(s) =~= escaped(seq![s[0]]) + escaped(s.skip(1)));
    }
}

/// A field that was escaped is read back from a line as it was, up to the colon behind it,
/// whatever colons and backslashes it holds.
pub proof fn law_escaped_field_reads_back(value: Seq<char>, rest: Seq<char>)
    ensures
        first_field(escaped(value) + ":"@ + rest) == (value, rest),
    decreases value.len(),
{
    reveal_strlit(":");
    reveal_with_fuel(escaped, 2);
    let line = escaped(value) + ":"@ + rest;
    if value.len() == 0 {
        assert(line[0] == ':');
        assert(line.skip(1) =~= rest);
        assert(value =~= Seq::empty());
    } else {
        let tail = value.skip(1);
        lemma_escaped_front(value);
        law_escaped_field_reads_back(tail, rest);
        let more = escaped(tail) + ":"@ + rest;
        let head = seq![value[0]];
        assert(head.drop_last() =~= Seq::empty());
        assert(seq![value[0]] + tail =~= value);
        if value[0] == '\\' || value[0] == ':' {
            assert(escaped(head) =~= seq!['\\', value[0]]);
            assert(line[0] == '\\' && line[1] == value[0]);
            assert(line.skip(2) =~= more);
        } else {
            assert(escaped(head) =~= seq![value[0]]);
            assert(line[0] == value[0]);
            assert(line.skip(1) =~= more);
        }
    }
}

/// The passwords stand in no command: connections that differ in their passwords alone are
/// restored by the same commands.
pub proof fn law_passwords_stay_out_of_commands(
    source: ConnectionView,
    target: ConnectionView,
    source_password: Seq<char>,
    target_password: Seq<char>,
    directory: Seq<char>,
)
    ensures
        planned_commands(
            ConnectionView { password: source_password, ..source },
            ConnectionView { password: target_password, ..target },
            directory,
        ) == planned_commands(source, target, directory),
{
}

/// A file that holds a password may be read by its owner alone.
pub proof fn law_password_files_are_private(
    source: ConnectionView,
    target: ConnectionView,
    directory: Seq<char>,
    i: int,
)
    requires
        0 <= i < planned_files(source, target, directory).len(),
    ensures
        ({
            let file = planned_files(source, target, directory)[i];
            file.private || file.contents == TRUNCATE_PUBLIC_SQL@
        }),
{
}

/// Only data of the public schema leaves the source, and the target is emptied and filled in
/// one transaction that the first error undoes.
pub proof fn law_restore_is_confined_and_atomic(
    source: ConnectionView,
    target: ConnectionView,
    directory: Seq<char>,
)
    ensures
        ({
            let commands = planned_commands(source, target, directory);
            &&& commands.len() == 3
            &&& commands[0].args.contains("--schema=public"@)
            &&& commands[0].args.contains("--data-only"@)
            &&& commands[1].args.contains("--schema=public"@)
            &&& commands[1].args.contains("--data-only"@)
            &&& commands[1].env.len() == 0
            &&& commands[2].args.contains("--single-transaction"@)
            &&& commands[2].args.contains("ON_ERROR_STOP=1"@)
        }),
{
    let commands = planned_commands(source, target, directory);
    assert(commands[0].args[2] == "--schema=public"@);
    assert(commands[0].args[1] == "--data-only"@);
    assert(commands[1].args[1] == "--schema=public"@);
    assert(commands[1].args[0] == "--data-only"@);
    assert(commands[2].args[2] == "--single-transaction"@);
    assert(commands[2].args[1] == "ON_ERROR_STOP=1"@);
}

} // verus!
