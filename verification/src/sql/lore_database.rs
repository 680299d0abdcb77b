//! The database of one storage location, the commands that change it, and
//! what the engine's answers to them mean.
//!
//! The library does not talk to the engine. It says what to ask, as
//! statements, and takes the answer as a plain value: the number of rows
//! that a command touched, the rows that a search found, or the engine's
//! message where it failed.

use crate::decimal::decimal;
use crate::errors::debug_quoted;
use crate::errors::failure;
use crate::errors::parameter_views;
use crate::errors::sql_error;
use crate::errors::LoreCoreError;
use crate::errors::Parameter;
use crate::errors::ParameterView;
use crate::sql::statement::Statement;
use crate::sql::statement::StatementView;
use vstd::prelude::*;

verus! {

/// The database at one storage location.
pub struct LoreDatabase {
    path: String,
}

/// The message for a location that is no text.
pub open spec fn unreadable_path(lossy: Seq<char>) -> Seq<char> {
    "Could not open database path."@
        + "This is likely because it contains characters that can not be UTF-8 encoded."@
        + "The lossy path conversion reads:\n"@ + lossy
}

impl LoreDatabase {
    /// The location as text.
    pub closed spec fn path(&self) -> Seq<char> {
        self.path@
    }

    /// The database at the location `path`.
    pub fn new(path: String) -> (database: LoreDatabase)
        ensures
            database.path() == path@,
    {
        LoreDatabase { path }
    }

    /// The database at the location `path`. A location that is not valid
    /// UTF-8 has no text, and cannot be handed to the engine: for it `path`
    /// is `None`, `lossy` says how it reads with what is invalid replaced,
    /// and the result is a file error.
    pub fn at(path: Option<&str>, lossy: &str) -> (database: Result<LoreDatabase, LoreCoreError>)
        ensures
            match database {
                Ok(database) => path is Some && database.path() == path->Some_0@,
                Err(error) => path is None && error is FileError && error.message()
                    == unreadable_path(lossy@),
            },
    {
        match path {
            Some(path) => Ok(LoreDatabase { path: path.to_owned() }),
            None => {
                let mut message = String::from_str("Could not open database path.");
                message.append(
                    "This is likely because it contains characters that can not be UTF-8 encoded.",
                );
                message.append("The lossy path conversion reads:\n");
                message.append(lossy);
                Err(LoreCoreError::FileError(message))
            },
        }
    }

    pub fn path_as_string(&self) -> (path: String)
        ensures
            path@ == self.path(),
    {
        self.path.clone()
    }

    /// The error for a connection that the engine refused with `reason`.
    pub fn connection_error(&self, reason: &str) -> (error: LoreCoreError)
        ensures
            error is SqlError,
            error.message() == "Failed to establish a connection to the database: "@ + reason@,
    {
        let mut message = String::from_str("Failed to establish a connection to the database: ");
        message.append(reason);
        LoreCoreError::SqlError(message)
    }

    /// The error for a schema that the engine could not bring up to date,
    /// for `reason`.
    pub fn migration_error(&self, reason: &str) -> (error: LoreCoreError)
        ensures
            error is SqlError,
            error.message() == "Failed to run SQL database migrations: "@ + reason@,
    {
        let mut message = String::from_str("Failed to run SQL database migrations: ");
        message.append(reason);
        LoreCoreError::SqlError(message)
    }
}

/// The parameter that names a text of a key, quoted as for debugging.
pub open spec fn text_parameter(name: Seq<char>, value: Seq<char>) -> ParameterView {
    ParameterView { name, value: debug_quoted(value) }
}

/// The parameter that names a number of a key, in decimal.
pub open spec fn number_parameter(name: Seq<char>, value: int) -> ParameterView {
    ParameterView { name, value: decimal(value) }
}

pub(crate) fn text_key(name: &str, value: &str) -> (parameter: Parameter)
    ensures
        parameter@ == text_parameter(name@, value@),
{
    Parameter::text(name, value)
}

pub(crate) fn number_key(name: &str, value: i64) -> (parameter: Parameter)
    ensures
        parameter@ == number_parameter(name@, value as int),
{
    Parameter::number(name, value)
}

/// How many rows a command must touch to have done its work.
#[derive(Clone, Copy, Debug, PartialEq, Eq, Structural)]
pub enum RowsExpected {
    /// Any number, none included: a deletion, which leaves nothing to do
    /// where nothing is found, and an insertion.
    Any,
    /// One or more: a change to every record of an entity.
    AtLeastOne,
    /// Exactly one: a change to the record with a given key.
    ExactlyOne,
}

/// Why the answer `answer` of the engine does not meet `expected`, if it
/// does not: the engine's own message where it failed, else what is wrong
/// with the number of rows.
pub open spec fn refusal(expected: RowsExpected, answer: Result<usize, String>) -> Option<
    Seq<char>,
> {
    match answer {
        Err(reason) => Some(reason@),
        Ok(rows) => match expected {
            RowsExpected::Any => None,
            RowsExpected::AtLeastOne => if rows == 0 {
                Some("no record matches"@)
            } else {
                None
            },
            RowsExpected::ExactlyOne => if rows == 0 {
                Some("no record matches"@)
            } else if rows > 1 {
                Some("more than one record matches"@)
            } else {
                None
            },
        },
    }
}

/// A command for the engine: the statement to execute, and what a report of
/// its failure needs: what it does, on which values, and how many rows it
/// must touch.
#[derive(Debug)]
pub struct Command {
    pub statement: Statement,
    pub action: String,
    pub parameters: Vec<Parameter>,
    pub expected: RowsExpected,
}

/// A command as plain values.
pub ghost struct CommandView {
    pub statement: StatementView,
    pub action: Seq<char>,
    pub parameters: Seq<ParameterView>,
    pub expected: RowsExpected,
}

impl View for Command {
    type V = CommandView;

    open spec fn view(&self) -> CommandView {
        CommandView {
            statement: self.statement@,
            action: self.action@,
            parameters: parameter_views(self.parameters@),
            expected: self.expected,
        }
    }
}

impl CommandView {
    /// Whether `outcome` is what the command comes to under the engine's
    /// `answer`: success where the answer meets what is expected, else an
    /// error of the engine's kind that names the action, the values and the
    /// reason.
    pub open spec fn comes_to(
        &self,
        answer: Result<usize, String>,
        outcome: Result<(), LoreCoreError>,
    ) -> bool {
        match refusal(self.expected, answer) {
            None => outcome is Ok,
            Some(reason) => {
                &&& outcome is Err
                &&& outcome->Err_0 is SqlError
                &&& outcome->Err_0.message() == failure(self.action, self.parameters, reason)
            },
        }
    }
}

impl Command {
    /// What the command comes to under the engine's `answer`: the number of
    /// rows touched, or the engine's message.
    pub fn conclude(&self, answer: &Result<usize, String>) -> (outcome: Result<(), LoreCoreError>)
        ensures
            self@.comes_to(*answer, outcome),
    {
        match answer {
            Err(reason) => Err(
                sql_error(self.action.as_str(), &self.parameters, reason.as_str()),
            ),
            Ok(rows) => {
                let rows = *rows;
                match self.expected {
                    RowsExpected::Any => Ok(()),
                    RowsExpected::AtLeastOne => if rows == 0 {
                        Err(sql_error(self.action.as_str(), &self.parameters, "no record matches"))
                    } else {
                        Ok(())
                    },
                    RowsExpected::ExactlyOne => if rows == 0 {
                        Err(sql_error(self.action.as_str(), &self.parameters, "no record matches"))
                    } else if rows > 1 {
                        Err(
                            sql_error(
                                self.action.as_str(),
                                &self.parameters,
                                "more than one record matches",
                            ),
                        )
                    } else {
                        Ok(())
                    },
                }
            },
        }
    }
}

/// A command that expects any number of rows succeeds whenever the engine
/// does, also where it touched nothing: to delete what is not there, once or
/// again, is no error.
pub proof fn lemma_nothing_to_delete_is_success(
    command: CommandView,
    rows: usize,
    outcome: Result<(), LoreCoreError>,
)
    requires
        command.expected == RowsExpected::Any,
        command.comes_to(Ok(rows), outcome),
    ensures
        outcome is Ok,
{
}

/// How far a batch has come: of `total` commands, `written` were accepted,
/// one after the other from the first. The batch has `failed` where a
/// command was refused, and where it is `doomed`, which is to fail after its
/// last command, and has come there.
pub ghost struct Progress {
    pub total: nat,
    pub written: nat,
    pub failed: bool,
    pub doomed: bool,
}

impl Progress {
    pub open spec fn start(total: nat, doomed: bool) -> Progress {
        Progress { total, written: 0, failed: doomed && total == 0, doomed }
    }

    /// Whether nothing is left to do: the batch has failed, or all its
    /// commands were accepted.
    pub open spec fn is_finished(self) -> bool {
        self.failed || self.written >= self.total
    }

    /// The progress after the answer to the pending command. A finished
    /// batch has no pending command and stays as it is.
    pub open spec fn after(self, accepted: bool) -> Progress {
        if self.is_finished() {
            self
        } else if accepted {
            Progress {
                written: self.written + 1,
                failed: self.doomed && self.written + 1 == self.total,
                ..self
            }
        } else {
            Progress { failed: true, ..self }
        }
    }

    /// The progress after the answers `answers`, in order.
    pub open spec fn after_all(self, answers: Seq<bool>) -> Progress
        decreases answers.len(),
    {
        if answers.len() == 0 {
            self
        } else {
            self.after(answers[0]).after_all(answers.drop_first())
        }
    }
}

/// A finished batch stays as it is, whatever is answered.
pub proof fn lemma_finished_batch_stays(progress: Progress, answers: Seq<bool>)
    requires
        progress.is_finished(),
    ensures
        progress.after_all(answers) == progress,
    decreases answers.len(),
{
    if answers.len() > 0 {
        lemma_finished_batch_stays(progress, answers.drop_first());
    }
}

/// A batch stops at the first command that is refused: the commands before
/// it are written, exactly those, and whatever would be answered after has
/// no effect.
pub proof fn lemma_batch_stops_at_first_failure(progress: Progress, answers: Seq<bool>, first: int)
    requires
        !progress.failed,
        0 <= first < answers.len(),
        progress.written + first < progress.total,
        !answers[first],
        forall|i: int| 0 <= i < first ==> answers[i],
    ensures
        progress.after_all(answers) == (Progress {
            written: progress.written + first as nat,
            failed: true,
            ..progress
        }),
    decreases answers.len(),
{
    let rest = answers.drop_first();
    if first == 0 {
        lemma_finished_batch_stays(progress.after(false), rest);
    } else {
        assert(answers[0]);
        assert(!rest[first - 1]);
        assert forall|i: int| 0 <= i < first - 1 implies rest[i] by {
            assert(rest[i] == answers[i + 1]);
        }
        lemma_batch_stops_at_first_failure(progress.after(true), rest, first - 1);
    }
}

/// A batch that is never refused writes all its commands, and fails only
/// where it is doomed.
pub proof fn lemma_batch_without_failure_completes(progress: Progress, answers: Seq<bool>)
    requires
        !progress.failed,
        progress.written + answers.len() == progress.total,
        answers.len() > 0,
        forall|i: int| 0 <= i < answers.len() ==> answers[i],
    ensures
        progress.after_all(answers) == (Progress {
            written: progress.total,
            failed: progress.doomed,
            ..progress
        }),
    decreases answers.len(),
{
    let rest = answers.drop_first();
    assert(answers[0]);
    if rest.len() > 0 {
        assert forall|i: int| 0 <= i < rest.len() implies rest[i] by {
            assert(rest[i] == answers[i + 1]);
        }
        lemma_batch_without_failure_completes(progress.after(true), rest);
    } else {
        assert(progress.after(true).after_all(rest) == progress.after(true));
    }
}

/// Commands to execute one after the other, up to the first that fails.
/// What was written before a failure stays written.
///
/// A batch may be cut short: made from the records that could be read, up
/// to one that could not. It then fails with the error of that record once
/// the commands before it are written.
#[derive(Debug)]
pub struct WriteBatch {
    commands: Vec<Command>,
    written: usize,
    failure: Option<LoreCoreError>,
    due: Option<LoreCoreError>,
    doomed: bool,
}

impl WriteBatch {
    /// The commands of the batch, in order.
    pub closed spec fn commands(&self) -> Seq<Command> {
        self.commands@
    }

    /// How far the batch has come.
    pub closed spec fn progress(&self) -> Progress {
        Progress {
            total: self.commands.len() as nat,
            written: self.written as nat,
            failed: self.failure is Some,
            doomed: self.doomed,
        }
    }

    /// The error that stopped the batch, if one did.
    pub closed spec fn failure(&self) -> Option<LoreCoreError> {
        self.failure
    }

    /// The error that a batch cut short fails with after its last command,
    /// as long as it has not come there.
    pub closed spec fn due(&self) -> Option<LoreCoreError> {
        self.due
    }

    /// Whether the batch is in order: it has not written more than it holds,
    /// and where it has written all it holds, no error is due any more.
    pub closed spec fn wf(&self) -> bool {
        &&& self.written <= self.commands.len()
        &&& self.written == self.commands.len() ==> self.due is None
        &&& self.failure is Some ==> self.due is None
        &&& self.failure is None && self.written < self.commands.len() ==> (self.due is Some
            <==> self.doomed)
        &&& self.failure is None && self.written == self.commands.len() ==> !self.doomed
    }

    /// The batch of `commands`, of which none is written yet.
    pub fn new(commands: Vec<Command>) -> (batch: WriteBatch)
        ensures
            batch.wf(),
            batch.commands() == commands@,
            batch.progress() == Progress::start(commands.len() as nat, false),
            batch.failure() is None,
            batch.due() is None,
    {
        WriteBatch { commands, written: 0, failure: None, due: None, doomed: false }
    }

    /// The batch of `commands` that fails with `error` once they are
    /// written: at once where there are none.
    pub fn cut_short(commands: Vec<Command>, error: LoreCoreError) -> (batch: WriteBatch)
        ensures
            batch.wf(),
            batch.commands() == commands@,
            batch.progress() == Progress::start(commands.len() as nat, true),
            commands.len() == 0 ==> batch.failure() == Some(error) && batch.due() is None,
            commands.len() > 0 ==> batch.failure() is None && batch.due() == Some(error),
    {
        if commands.len() == 0 {
            WriteBatch { commands, written: 0, failure: Some(error), due: None, doomed: true }
        } else {
            WriteBatch { commands, written: 0, failure: None, due: Some(error), doomed: true }
        }
    }

    /// The command to execute next: the first that is not written, as long
    /// as the batch has not failed. `None` when the batch is finished.
    pub fn pending(&self) -> (command: Option<&Command>)
        requires
            self.wf(),
        ensures
            match command {
                Some(command) => !self.progress().is_finished() && *command
                    == self.commands()[self.progress().written as int],
                None => self.progress().is_finished(),
            },
    {
        if self.failure.is_none() && self.written < self.commands.len() {
            Some(&self.commands[self.written])
        } else {
            None
        }
    }

    /// Takes the engine's answer to the pending command. Accepted, the
    /// command counts as written, and where it was the last of a batch cut
    /// short, the batch fails with the error that was due. Refused, the
    /// command stops the batch with its own error. A finished batch takes no
    /// answers: it stays as it is.
    pub fn record(&mut self, answer: &Result<usize, String>)
        requires
            old(self).wf(),
        ensures
            final(self).wf(),
            final(self).commands() == old(self).commands(),
            old(self).progress().is_finished() ==> final(self).progress() == old(self).progress()
                && final(self).failure() == old(self).failure() && final(self).due() == old(
                self,
            ).due(),
            !old(self).progress().is_finished() ==> {
                let command = old(self).commands()[old(self).progress().written as int];
                let accepted = refusal(command.expected, *answer) is None;
                &&& final(self).progress() == old(self).progress().after(accepted)
                &&& accepted ==> final(self).failure() == (if final(self).progress().failed {
                    old(self).due()
                } else {
                    None
                })
                &&& !accepted ==> final(self).failure() is Some && command@.comes_to(
                    *answer,
                    Err(final(self).failure()->Some_0),
                )
                &&& final(self).progress().failed ==> final(self).due() is None
                &&& !final(self).progress().failed ==> final(self).due() == old(self).due()
            },
    {
        if self.failure.is_none() && self.written < self.commands.len() {
            match self.commands[self.written].conclude(answer) {
                Ok(()) => {
                    self.written = self.written + 1;
                    if self.written == self.commands.len() {
                        self.failure = self.due.take();
                    }
                },
                Err(error) => {
                    self.failure = Some(error);
                    self.due = None;
                },
            }
        }
    }

    /// Whether nothing is left to do.
    pub fn is_finished(&self) -> (finished: bool)
        requires
            self.wf(),
        ensures
            finished == self.progress().is_finished(),
    {
        self.failure.is_some() || self.written >= self.commands.len()
    }

    /// The number of commands written.
    pub fn written(&self) -> (written: usize)
        ensures
            written == self.progress().written,
    {
        self.written
    }

    /// What the batch came to: the error that stopped it, or success where
    /// none did. Before the batch is finished, success means only that
    /// nothing failed yet.
    pub fn outcome(&self) -> (outcome: Result<(), LoreCoreError>)
        ensures
            match self.failure() {
                Some(error) => outcome is Err && outcome->Err_0.same_as(&error),
                None => outcome is Ok,
            },
    {
        match &self.failure {
            Some(error) => Err(error.clone()),
            None => Ok(()),
        }
    }
}

} // verus!
