//! What a restore writes and runs, whatever is restored.

use vstd::prelude::*;

use crate::config::ProjectDatabaseConnection;
use crate::fields;
use crate::fields::{is_blank, is_trim_of, refuses, says};
use crate::restore::{
    CommandSpec, ProcessOutput, ProcessRunner, RestorePlan, SystemProcessRunner, WorkspaceFile,
};
use crate::runs::Runs;
use crate::status::{Code, Status};
use crate::text_laws::spells;
use crate::{http, restore, text, text_laws};

verus! {

/// Whether the argument at this place is this text.
pub open spec fn argument(command: CommandSpec, place: int, value: Seq<char>) -> bool {
    0 <= place < command.args@.len() && command.args@[place]@ == value
}

/// Whether the variables of the command lead it to the database, with the password in the file.
pub open spec fn reaches(
    command: CommandSpec,
    connection: ProjectDatabaseConnection,
    passfile: Seq<char>,
) -> bool {
    &&& command.env@.len() == 5
    &&& says(command.env@, 0, "PGHOST"@, connection.host@)
    &&& command.env@[1].0@ == "PGPORT"@
    &&& spells(command.env@[1].1@, connection.port as int)
    &&& says(command.env@, 2, "PGDATABASE"@, connection.database@)
    &&& says(command.env@, 3, "PGUSER"@, connection.user@)
    &&& says(command.env@, 4, "PGPASSFILE"@, passfile)
}

proof fn lemma_reaches(
    command: CommandSpec,
    connection: ProjectDatabaseConnection,
    passfile: Seq<char>,
)
    requires
        http::pairs(command.env@) == restore::connection_variables(connection@, passfile),
    ensures
        reaches(command, connection, passfile),
{
    assert(http::pairs(command.env@).len() == command.env@.len());
    fields::lemma_says(command.env@, 0);
    fields::lemma_says(command.env@, 1);
    fields::lemma_says(command.env@, 2);
    fields::lemma_says(command.env@, 3);
    fields::lemma_says(command.env@, 4);
    text_laws::lemma_decimal_spells(connection.port as nat);
}

/// Whether the command writes the data of the public schema of the source to the file `dump`.
pub open spec fn dumps(
    command: CommandSpec,
    source: ProjectDatabaseConnection,
    passfile: Seq<char>,
    dump: Seq<char>,
) -> bool {
    &&& command.program@ == "pg_dump"@
    &&& command.args@.len() == 7
    &&& argument(command, 0, "--format=custom"@)
    &&& argument(command, 1, "--data-only"@)
    &&& argument(command, 2, "--schema=public"@)
    &&& argument(command, 3, "--no-owner"@)
    &&& argument(command, 4, "--no-privileges"@)
    &&& argument(command, 5, "--file"@)
    &&& argument(command, 6, dump)
    &&& reaches(command, source, passfile)
}

/// Whether the command makes of the file `dump` the SQL in the file `sql`, and reaches no
/// database.
pub open spec fn renders(command: CommandSpec, dump: Seq<char>, sql: Seq<char>) -> bool {
    &&& command.program@ == "pg_restore"@
    &&& command.args@.len() == 7
    &&& argument(command, 0, "--data-only"@)
    &&& argument(command, 1, "--schema=public"@)
    &&& argument(command, 2, "--no-owner"@)
    &&& argument(command, 3, "--no-privileges"@)
    &&& argument(command, 4, "--file"@)
    &&& argument(command, 5, sql)
    &&& argument(command, 6, dump)
    &&& command.env@.len() == 0
}

/// Whether the command runs at the target, in one transaction that the first error undoes, the
/// file `first`, then the file `second`, and nothing else.
pub open spec fn loads(
    command: CommandSpec,
    target: ProjectDatabaseConnection,
    passfile: Seq<char>,
    first: Seq<char>,
    second: Seq<char>,
) -> bool {
    &&& command.program@ == "psql"@
    &&& command.args@.len() == 7
    &&& argument(command, 0, "-v"@)
    &&& argument(command, 1, "ON_ERROR_STOP=1"@)
    &&& argument(command, 2, "--single-transaction"@)
    &&& argument(command, 3, "-f"@)
    &&& argument(command, 4, first)
    &&& argument(command, 5, "-f"@)
    &&& argument(command, 6, second)
    &&& reaches(command, target, passfile)
}

proof fn lemma_arguments(command: CommandSpec)
    ensures
        command@.args.len() == command.args@.len(),
        forall|i: int|
            0 <= i < command.args@.len() ==> #[trigger] command@.args[i] == command.args@[i]@,
{
}

proof fn lemma_commands(
    commands: Seq<CommandSpec>,
    source: ProjectDatabaseConnection,
    target: ProjectDatabaseConnection,
    source_passfile: Seq<char>,
    target_passfile: Seq<char>,
    dump: Seq<char>,
    sql: Seq<char>,
    truncate: Seq<char>,
)
    requires
        restore::command_views(commands) == restore::restore_steps(
            source@,
            target@,
            source_passfile,
            target_passfile,
            dump,
            sql,
            truncate,
        ),
    ensures
        commands.len() == 3,
        dumps(commands[0], source, source_passfile, dump),
        renders(commands[1], dump, sql),
        loads(commands[2], target, target_passfile, truncate, sql),
{
    let views = restore::command_views(commands);
    assert(views.len() == commands.len());
    assert(views[0] == commands[0]@ && views[1] == commands[1]@ && views[2] == commands[2]@);
    lemma_arguments(commands[0]);
    lemma_arguments(commands[1]);
    lemma_arguments(commands[2]);
    lemma_reaches(commands[0], source, source_passfile);
    lemma_reaches(commands[2], target, target_passfile);
    assert(http::pairs(commands[1].env@).len() == commands[1].env@.len());
    assert(views[0].args[0] == commands[0].args@[0]@);
    assert(views[0].args[1] == commands[0].args@[1]@);
    assert(views[0].args[2] == commands[0].args@[2]@);
    assert(views[0].args[3] == commands[0].args@[3]@);
    assert(views[0].args[4] == commands[0].args@[4]@);
    assert(views[0].args[5] == commands[0].args@[5]@);
    assert(views[0].args[6] == commands[0].args@[6]@);
    assert(views[1].args[0] == commands[1].args@[0]@);
    assert(views[1].args[1] == commands[1].args@[1]@);
    assert(views[1].args[2] == commands[1].args@[2]@);
    assert(views[1].args[3] == commands[1].args@[3]@);
    assert(views[1].args[4] == commands[1].args@[4]@);
    assert(views[1].args[5] == commands[1].args@[5]@);
    assert(views[1].args[6] == commands[1].args@[6]@);
    assert(views[2].args[0] == commands[2].args@[0]@);
    assert(views[2].args[1] == commands[2].args@[1]@);
    assert(views[2].args[2] == commands[2].args@[2]@);
    assert(views[2].args[3] == commands[2].args@[3]@);
    assert(views[2].args[4] == commands[2].args@[4]@);
    assert(views[2].args[5] == commands[2].args@[5]@);
    assert(views[2].args[6] == commands[2].args@[6]@);
}

/// The source is written to a file, that file is made SQL, and the target is emptied before that
/// SQL fills it; nothing is run at the target after it.
pub proof fn law_target_is_emptied_before_it_is_filled(
    source: ProjectDatabaseConnection,
    target: ProjectDatabaseConnection,
    source_passfile: &str,
    target_passfile: &str,
    dump: &str,
    sql: &str,
    truncate: &str,
    r: Vec<CommandSpec>,
)
    requires
        call_ensures(
            restore::restore_commands,
            (&source, &target, source_passfile, target_passfile, dump, sql, truncate),
            r,
        ),
    ensures
        r@.len() == 3,
        dumps(r@[0], source, source_passfile@, dump@),
        renders(r@[1], dump@, sql@),
        loads(r@[2], target, target_passfile@, truncate@, sql@),
{
    lemma_commands(
        r@,
        source,
        target,
        source_passfile@,
        target_passfile@,
        dump@,
        sql@,
        truncate@,
    );
}

/// Whether the line of a password file has these five fields, read as the programs of PostgreSQL
/// read it: a colon ends a field, and a backslash takes its meaning from the character behind it.
pub open spec fn holds_fields(
    line: Seq<char>,
    connection: ProjectDatabaseConnection,
) -> bool {
    let after_host = restore::first_field(line);
    let after_port = restore::first_field(after_host.1);
    let after_database = restore::first_field(after_port.1);
    let after_user = restore::first_field(after_database.1);
    let password = after_user.1;
    &&& after_host.0 == connection.host@
    &&& spells(after_port.0, connection.port as int)
    &&& after_database.0 == connection.database@
    &&& after_user.0 == connection.user@
    &&& password.len() > 0
    &&& password.last() == '\n'
    &&& restore::first_field(password.drop_last() + seq![':']).0 == connection.password@
}

proof fn lemma_plain_field(value: Seq<char>, rest: Seq<char>)
    requires
        forall|i: int| 0 <= i < value.len() ==> '0' <= #[trigger] value[i] <= '9',
    ensures
        restore::first_field(value + ":"@ + rest) == (value, rest),
    decreases value.len(),
{
    lemma_plain_escaped(value);
    restore::law_escaped_field_reads_back(value, rest);
}

proof fn lemma_plain_escaped(value: Seq<char>)
    requires
        forall|i: int| 0 <= i < value.len() ==> '0' <= #[trigger] value[i] <= '9',
    ensures
        restore::escaped(value) == value,
    decreases value.len(),
{
    if value.len() > 0 {
        let front = value.drop_last();
        assert(forall|i: int| 0 <= i < front.len() ==> #[trigger] front[i] == value[i]);
        lemma_plain_escaped(front);
        assert(value.last() == value[value.len() - 1]);
        assert(front.push(value.last()) =~= value);
    }
}

proof fn lemma_holds_fields(connection: ProjectDatabaseConnection)
    ensures
        holds_fields(restore::pgpass_line(connection@), connection),
{
    reveal_strlit(":");
    reveal_strlit("\n");
    let c = connection@;
    let host = restore::escaped(c.host);
    let port = text::decimal(c.port as nat);
    let database = restore::escaped(c.database);
    let user = restore::escaped(c.user);
    let password = restore::escaped(c.password);
    text_laws::lemma_decimal_spells(c.port as nat);
    let line = restore::pgpass_line(c);
    let d = password + "\n"@;
    let u = user + ":"@ + d;
    let b = database + ":"@ + u;
    let p = port + ":"@ + b;
    assert(line =~= host + ":"@ + p);
    restore::law_escaped_field_reads_back(c.host, p);
    lemma_plain_field(port, b);
    restore::law_escaped_field_reads_back(c.database, u);
    restore::law_escaped_field_reads_back(c.user, d);
    assert(d.drop_last() =~= password);
    let nothing = Seq::<char>::empty();
    assert(d.drop_last() + seq![':'] =~= password + ":"@ + nothing);
    restore::law_escaped_field_reads_back(c.password, nothing);
}

/// A password file holds the host, the port, the database, the user and the password of its
/// connection, in this order, whatever colons and backslashes they hold.
pub proof fn law_password_file_holds_the_connection(
    connection: ProjectDatabaseConnection,
    r: String,
)
    requires
        call_ensures(restore::pgpass_contents, (&connection,), r),
    ensures
        holds_fields(r@, connection),
{
    lemma_holds_fields(connection);
}

/// A field that was escaped is read back as it was.
pub proof fn law_escaped_field_is_read_back(value: &str, rest: Seq<char>, r: String)
    requires
        call_ensures(restore::escape_pgpass_field, (value,), r),
    ensures
        restore::first_field(r@ + seq![':'] + rest) == (value@, rest),
{
    reveal_strlit(":");
    assert(seq![':'] =~= ":"@);
    restore::law_escaped_field_reads_back(value@, rest);
}

/// The variables for the programs of PostgreSQL name the host, the port, the database and the
/// user of the connection, and the password file.
pub proof fn law_variables_name_the_connection(
    connection: ProjectDatabaseConnection,
    passfile: &str,
    r: Vec<(String, String)>,
)
    requires
        call_ensures(restore::connection_env, (&connection, passfile), r),
    ensures
        r@.len() == 5,
        says(r@, 0, "PGHOST"@, connection.host@),
        r@[1].0@ == "PGPORT"@ && spells(r@[1].1@, connection.port as int),
        says(r@, 2, "PGDATABASE"@, connection.database@),
        says(r@, 3, "PGUSER"@, connection.user@),
        says(r@, 4, "PGPASSFILE"@, passfile@),
{
    assert(http::pairs(r@).len() == r@.len());
    fields::lemma_says(r@, 0);
    fields::lemma_says(r@, 1);
    fields::lemma_says(r@, 2);
    fields::lemma_says(r@, 3);
    fields::lemma_says(r@, 4);
    text_laws::lemma_decimal_spells(connection.port as nat);
}

/// Whether the path lies in the directory under this name.
pub open spec fn lies_in(path: Seq<char>, directory: Seq<char>, name: Seq<char>) -> bool {
    if directory.len() == 0 || directory.last() == '/' {
        path == directory + name
    } else {
        path == directory + "/"@ + name
    }
}

/// What a restore writes before it runs: the SQL that empties the public schema, which everybody
/// may read, and one password file for each database, which its owner alone may read. What it
/// runs uses the files so: `pg_dump` reaches the source with the password file of the source,
/// `pg_restore` reads what `pg_dump` has written, and `psql` reaches the target with the password
/// file of the target, empties it by the first file, and then runs what `pg_restore` has written.
pub proof fn law_restore_uses_the_files_it_writes(
    source: ProjectDatabaseConnection,
    target: ProjectDatabaseConnection,
    directory: &str,
    r: RestorePlan,
)
    requires
        call_ensures(restore::restore_public_schema, (&source, &target, directory), r),
    ensures
        r.files@.len() == 3,
        r.files@[0].contents@ == restore::TRUNCATE_PUBLIC_SQL@,
        r.files@[0].contents@ == "
DO $$
DECLARE
    r record;
BEGIN
    FOR r IN
        SELECT quote_ident(schemaname) || '.' || quote_ident(tablename) AS full_name
        FROM pg_tables
        WHERE schemaname = 'public'
    LOOP
        EXECUTE 'TRUNCATE TABLE ' || r.full_name || ' RESTART IDENTITY CASCADE';
    END LOOP;
END $$;
"@,
        lies_in(r.files@[0].path@, directory@, "truncate-public.sql"@),
        r.files@[0].failure@ == "failed to write restore SQL: "@,
        holds_fields(r.files@[1].contents@, source),
        r.files@[1].private,
        lies_in(r.files@[1].path@, directory@, "source.pgpass"@),
        r.files@[1].failure@ == "failed to write source passfile: "@,
        holds_fields(r.files@[2].contents@, target),
        r.files@[2].private,
        lies_in(r.files@[2].path@, directory@, "target.pgpass"@),
        r.files@[2].failure@ == "failed to write target passfile: "@,
        r.commands@.len() == 3,
        ({
            let dump = r.commands@[0].args@[6]@;
            let sql = r.commands@[1].args@[5]@;
            &&& lies_in(dump, directory@, "public.dump"@)
            &&& lies_in(sql, directory@, "public-data.sql"@)
            &&& dumps(r.commands@[0], source, r.files@[1].path@, dump)
            &&& renders(r.commands@[1], dump, sql)
            &&& loads(r.commands@[2], target, r.files@[2].path@, r.files@[0].path@, sql)
        }),
{
    let views = restore::file_views(r.files@);
    assert(views.len() == r.files@.len());
    assert(views[0] == r.files@[0]@ && views[1] == r.files@[1]@ && views[2] == r.files@[2]@);
    lemma_holds_fields(source);
    lemma_holds_fields(target);
    lemma_commands(
        r.commands@,
        source,
        target,
        text::path_within(directory@, "source.pgpass"@),
        text::path_within(directory@, "target.pgpass"@),
        text::path_within(directory@, "public.dump"@),
        text::path_within(directory@, "public-data.sql"@),
        text::path_within(directory@, "truncate-public.sql"@),
    );
}

/// In the last command of a restore, the file that empties the target stands behind a `-f` before
/// the one behind which the file stands that the second command writes; that file comes last.
pub proof fn law_emptying_comes_before_filling(
    source: ProjectDatabaseConnection,
    target: ProjectDatabaseConnection,
    directory: &str,
    r: RestorePlan,
    emptying: int,
    written: int,
) -> (places: (int, int))
    requires
        call_ensures(restore::restore_public_schema, (&source, &target, directory), r),
        0 <= emptying < r.files@.len(),
        r.files@[emptying].contents@ == restore::TRUNCATE_PUBLIC_SQL@,
        r.files@[emptying].failure@ == "failed to write restore SQL: "@,
        0 <= written < r.commands@[1].args@.len() - 1,
        r.commands@[1].args@[written]@ == "--file"@,
    ensures
        0 <= places.0,
        places.0 + 1 < places.1,
        places.1 + 2 == r.commands@[2].args@.len(),
        r.commands@[2].args@[places.0]@ == "-f"@,
        r.commands@[2].args@[places.0 + 1]@ == r.files@[emptying].path@,
        r.commands@[2].args@[places.1]@ == "-f"@,
        r.commands@[2].args@[places.1 + 1]@ == r.commands@[1].args@[written + 1]@,
{
    law_restore_uses_the_files_it_writes(source, target, directory, r);
    let c = r.commands@[1];
    let files = r.files@;
    reveal_strlit("failed to write restore SQL: ");
    reveal_strlit("failed to write source passfile: ");
    reveal_strlit("failed to write target passfile: ");
    assert(files[1].failure@[16] != "failed to write restore SQL: "@[16]);
    assert(files[2].failure@[16] != "failed to write restore SQL: "@[16]);
    assert(emptying == 0);
    reveal_strlit("--file");
    reveal_strlit("--data-only");
    reveal_strlit("--schema=public");
    reveal_strlit("--no-owner");
    reveal_strlit("--no-privileges");
    assert("--data-only"@[2] != "--file"@[2]);
    assert("--schema=public"@[2] != "--file"@[2]);
    assert("--no-owner"@[2] != "--file"@[2]);
    assert("--no-privileges"@[2] != "--file"@[2]);
    if written == 5 {
        lemma_not_a_flag(source, target, directory, r);
    }
    (3, 5)
}

proof fn lemma_not_a_flag(
    source: ProjectDatabaseConnection,
    target: ProjectDatabaseConnection,
    directory: &str,
    r: RestorePlan,
)
    requires
        call_ensures(restore::restore_public_schema, (&source, &target, directory), r),
    ensures
        r.commands@[1].args@[5]@ != "--file"@,
{
    law_restore_uses_the_files_it_writes(source, target, directory, r);
    let sql = r.commands@[1].args@[5]@;
    reveal_strlit("--file");
    reveal_strlit("public-data.sql");
    assert(sql.len() >= 15);
    assert("--file"@.len() == 6);
}

/// The files that a restore writes and has written are five different ones.
pub proof fn law_files_do_not_clash(
    source: ProjectDatabaseConnection,
    target: ProjectDatabaseConnection,
    directory: &str,
    r: RestorePlan,
)
    requires
        call_ensures(restore::restore_public_schema, (&source, &target, directory), r),
    ensures
        ({
            let dump = r.commands@[0].args@[6]@;
            let sql = r.commands@[1].args@[5]@;
            &&& r.files@[0].path@ != r.files@[1].path@
            &&& r.files@[0].path@ != r.files@[2].path@
            &&& r.files@[1].path@ != r.files@[2].path@
            &&& dump != sql
            &&& dump != r.files@[0].path@ && dump != r.files@[1].path@ && dump != r.files@[2].path@
            &&& sql != r.files@[0].path@ && sql != r.files@[1].path@ && sql != r.files@[2].path@
        }),
{
    law_restore_uses_the_files_it_writes(source, target, directory, r);
    reveal_strlit("/");
    reveal_strlit("truncate-public.sql");
    reveal_strlit("source.pgpass");
    reveal_strlit("target.pgpass");
    reveal_strlit("public.dump");
    reveal_strlit("public-data.sql");
    let n = directory@.len() as int;
    let at = if n == 0 || directory@.last() == '/' {
        n
    } else {
        n + 1
    };
    assert(r.files@[1].path@[at] == 's');
    assert(r.files@[2].path@[at] == 't');
    assert(r.files@[0].path@.len() == at + 19);
    assert(r.files@[1].path@.len() == at + 13);
    assert(r.files@[2].path@.len() == at + 13);
    assert(r.commands@[0].args@[6]@.len() == at + 11);
    assert(r.commands@[1].args@[5]@.len() == at + 15);
}

/// A program that has ended with success is good; of any other it is told which it was and what
/// became of it.
pub proof fn law_programs_are_judged_by_their_end(
    runner: SystemProcessRunner,
    command: CommandSpec,
    output: ProcessOutput,
    r: Result<(), Status>,
)
    requires
        call_ensures(SystemProcessRunner::outcome, (&runner, &command, output), r),
    ensures
        r is Ok <==> output matches ProcessOutput::Ended { success: true, .. },
        output matches ProcessOutput::NotStarted(error) ==> refuses(
            r,
            Code::Internal,
            "failed to run "@ + command.program@ + ": "@ + error@,
        ),
        output matches ProcessOutput::Ended { success, status_text, stderr } ==> !success
            && is_blank(stderr@) ==> refuses(
            r,
            Code::Internal,
            command.program@ + " failed with exit status "@ + status_text@,
        ),
        output matches ProcessOutput::Ended { success, status_text, stderr } ==> !success
            && !is_blank(stderr@) ==> exists|said: Seq<char>|
            is_trim_of(said, stderr@) && #[trigger] refuses(
                r,
                Code::Internal,
                command.program@ + " failed with exit status "@ + status_text@ + ": "@ + said,
            ),
{
    if let ProcessOutput::Ended { success, status_text, stderr } = output {
        fields::lemma_blank(stderr@);
        fields::lemma_trim(stderr@);
        let said = text::trimmed(stderr@);
        if !success && !is_blank(stderr@) {
            assert(refuses(
                r,
                Code::Internal,
                command.program@ + " failed with exit status "@ + status_text@ + ": "@ + said,
            ));
        }
    }
}

/// Commands are handed to the runner one by one, in order, from the first on, until one is
/// refused or none is left; the last answer is what is given back.
pub proof fn law_commands_are_run_in_order<R: ProcessRunner>(
    commands: Vec<CommandSpec>,
    runner: &mut Runs<R>,
    r: Result<(), Status>,
)
    requires
        old(runner).wf(),
        call_ensures(restore::run_commands::<R>, (&commands, runner), r),
    ensures
        ({
            let n = old(runner).history().len() as int;
            let m = final(runner).history().len() as int;
            let history = final(runner).history();
            &&& n <= m <= n + commands@.len()
            &&& forall|i: int| 0 <= i < n ==> #[trigger] history[i] == old(runner).history()[i]
            &&& forall|i: int|
                n <= i < m ==> (#[trigger] history[i]).command == commands@[i - n]@
            &&& forall|i: int| n <= i < m - 1 ==> (#[trigger] history[i]).refusal is None
            &&& r is Ok <==> m == n + commands@.len() && (m > n ==> history[m - 1].refusal is None)
            &&& r matches Err(status) ==> m > n && (history[m - 1].refusal matches Some(refusal)
                && refusal.code == status.code && refusal.message == status.message@)
        }),
{
    let before = old(runner).history();
    let after = final(runner).history();
    let n = before.len() as int;
    let views = restore::command_views(commands@);
    let made = after.skip(n);
    assert(views.len() == commands@.len());
    assert forall|i: int| 0 <= i < n implies #[trigger] after[i] == before[i] by {
        assert(after.take(n)[i] == after[i]);
    }
    assert forall|i: int| n <= i < after.len() implies (#[trigger] after[i]).command
        == commands@[i - n]@ by {
        assert(made[i - n] == after[i]);
        assert(views[i - n] == commands@[i - n]@);
    }
    assert forall|i: int| n <= i < after.len() - 1 implies (#[trigger] after[i]).refusal is None by {
        assert(made[i - n] == after[i]);
    }
    if after.len() > n {
        assert(made[made.len() - 1] == after[after.len() - 1]);
    }
}

/// A restore hands the runner the commands of its plan one by one, in order, from the first on,
/// until one is refused or all three were carried out; the last answer is what is given back.
pub proof fn law_restore_runs_its_plan<R: ProcessRunner>(
    source: ProjectDatabaseConnection,
    target: ProjectDatabaseConnection,
    directory: &str,
    plan: RestorePlan,
    runner: &mut Runs<R>,
    r: Result<(), Status>,
)
    requires
        old(runner).wf(),
        call_ensures(restore::restore_public_schema, (&source, &target, directory), plan),
        call_ensures(
            restore::restore_public_schema_with_runner::<R>,
            (&source, &target, directory, runner),
            r,
        ),
    ensures
        ({
            let n = old(runner).history().len() as int;
            let m = final(runner).history().len() as int;
            let history = final(runner).history();
            &&& n < m <= n + 3
            &&& forall|i: int| 0 <= i < n ==> #[trigger] history[i] == old(runner).history()[i]
            &&& forall|i: int|
                n <= i < m ==> (#[trigger] history[i]).command == plan.commands@[i - n]@
            &&& forall|i: int| n <= i < m - 1 ==> (#[trigger] history[i]).refusal is None
            &&& r is Ok <==> m == n + 3 && history[m - 1].refusal is None
            &&& r matches Err(status) ==> (history[m - 1].refusal matches Some(refusal)
                && refusal.code == status.code && refusal.message == status.message@)
        }),
{
    let before = old(runner).history();
    let after = final(runner).history();
    let n = before.len() as int;
    let views = restore::command_views(plan.commands@);
    let made = after.skip(n);
    assert(views.len() == plan.commands@.len());
    assert(views.len() == 3);
    assert forall|i: int| 0 <= i < n implies #[trigger] after[i] == before[i] by {
        assert(after.take(n)[i] == after[i]);
    }
    assert(made.len() == after.len() - n);
    assert forall|i: int| n <= i < after.len() implies (#[trigger] after[i]).command
        == plan.commands@[i - n]@ by {
        assert(made[i - n] == after[i]);
        assert(views[i - n] == plan.commands@[i - n]@);
    }
    assert forall|i: int| n <= i < after.len() - 1 implies (#[trigger] after[i]).refusal is None by {
        assert(made[i - n] == after[i]);
    }
    assert(made[made.len() - 1] == after[after.len() - 1]);
}

/// After a refusal no command follows; otherwise the next one does, until all are done.
pub proof fn law_next_command_follows_the_last(
    commands: Vec<CommandSpec>,
    done: usize,
    last: Result<(), Status>,
    r: Result<Option<&CommandSpec>, Status>,
)
    requires
        call_ensures(restore::next_command, (&commands, done, last), r),
    ensures
        last matches Err(status) ==> refuses(r, status.code, status.message@),
        last is Ok && done < commands@.len() ==> (r matches Ok(Some(next)) && *next
            == commands@[done as int]),
        last is Ok && done >= commands@.len() ==> r matches Ok(None),
{
}

/// Of a file that cannot be written, and of a directory that cannot be made, it is told why.
pub proof fn law_missing_files_are_told(
    file: WorkspaceFile,
    error: &str,
    not_written: Status,
    no_workspace: Status,
)
    requires
        call_ensures(WorkspaceFile::not_written, (&file, error), not_written),
        call_ensures(restore::no_workspace, (error,), no_workspace),
    ensures
        not_written.code == Code::Internal,
        not_written.message@ == file.failure@ + error@,
        no_workspace.code == Code::Internal,
        no_workspace.message@ == "failed to create restore workspace: "@ + error@,
{
}

} // verus!
