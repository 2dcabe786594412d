//! The task data model and the decision logic of the execution engine.
//!
//! A task is a literal command, an inline shell script, or a composite
//! that runs other named tasks in sequence or in parallel. The engine
//! here is purely decisional: it builds the process specification for a
//! leaf task, classifies the outcome of a spawned process, and tells a
//! driver which step to run next, which step to spawn next, or which
//! error to surface. The driver around the library performs the actual
//! spawning, waiting, thread fan-out and logging, and feeds every
//! outcome back into these functions.

use vstd::prelude::*;
use vstd::string::StringExecFns;

use crate::config::{registry_contains, AlchemistConfig};
use crate::error::{AlchemistError, AssertionError, ErrorContext};

verus! {

// ---------------------------------------------------------------------
// String helpers
// ---------------------------------------------------------------------
/// The views of a sequence of strings.
pub open spec fn string_views(ss: Seq<String>) -> Seq<Seq<char>> {
    ss.map_values(|s: String| s@)
}

/// The views of a sequence of string pairs.
pub open spec fn pair_views(ps: Seq<(String, String)>) -> Seq<(Seq<char>, Seq<char>)> {
    ps.map_values(|p: (String, String)| (p.0@, p.1@))
}

/// The parts joined with the separator between consecutive parts.
pub open spec fn join_with(parts: Seq<Seq<char>>, sep: Seq<char>) -> Seq<char>
    decreases parts.len(),
{
    if parts.len() == 0 {
        Seq::empty()
    } else if parts.len() == 1 {
        parts[0]
    } else {
        join_with(parts.drop_last(), sep) + sep + parts.last()
    }
}

/// Joins the strings with the separator, as `join` on string slices
/// does.
pub fn join_strings(parts: &Vec<String>, sep: &str) -> (r: String)
    ensures
        r@ == join_with(string_views(parts@), sep@),
{
    let ghost views = string_views(parts@);
    let mut r = String::new();
    let mut i: usize = 0;
    while i < parts.len()
        invariant
            i <= parts@.len(),
            views == string_views(parts@),
            views.len() == parts@.len(),
            r@ == join_with(views.take(i as int), sep@),
        decreases parts@.len() - i,
    {
        if i > 0 {
            r.append(sep);
        }
        r.append(parts[i].as_str());
        proof {
            assert(views.take(i + 1).drop_last() =~= views.take(i as int));
            assert(views.take(i + 1).last() == views[i as int]);
            assert(views[i as int] == parts@[i as int]@);
            if i == 0 {
                assert(r@ =~= join_with(views.take(i + 1), sep@));
            } else {
                assert(r@ =~= join_with(views.take(i as int), sep@) + sep@ + views[i as int]);
            }
        }
        i = i + 1;
    }
    proof {
        assert(views.take(parts@.len() as int) =~= views);
    }
    r
}

/// Clones a vector of strings; the clone reads the same.
fn clone_string_vec(v: &Vec<String>) -> (r: Vec<String>)
    ensures
        string_views(r@) == string_views(v@),
{
    let mut r: Vec<String> = Vec::new();
    let mut i: usize = 0;
    while i < v.len()
        invariant
            i <= v@.len(),
            r@.len() == i,
            forall|j: int| 0 <= j < i ==> r@[j]@ == v@[j]@,
        decreases v@.len() - i,
    {
        r.push(v[i].clone());
        i = i + 1;
    }
    proof {
        assert(string_views(r@) =~= string_views(v@));
    }
    r
}

/// Clones a vector of string pairs; the clone reads the same.
fn clone_pair_vec(v: &Vec<(String, String)>) -> (r: Vec<(String, String)>)
    ensures
        pair_views(r@) == pair_views(v@),
{
    let mut r: Vec<(String, String)> = Vec::new();
    let mut i: usize = 0;
    while i < v.len()
        invariant
            i <= v@.len(),
            r@.len() == i,
            forall|j: int| 0 <= j < i ==> r@[j].0@ == v@[j].0@ && r@[j].1@ == v@[j].1@,
        decreases v@.len() - i,
    {
        let p = &v[i];
        r.push((p.0.clone(), p.1.clone()));
        i = i + 1;
    }
    proof {
        assert(pair_views(r@) =~= pair_views(v@));
    }
    r
}

/// Concatenates five string slices.
fn concat5(a: &str, b: &str, c: &str, d: &str, e: &str) -> (r: String)
    ensures
        r@ == a@ + b@ + c@ + d@ + e@,
{
    let mut r = String::new();
    r.append(a);
    r.append(b);
    r.append(c);
    r.append(d);
    r.append(e);
    proof {
        assert(r@ =~= a@ + b@ + c@ + d@ + e@);
    }
    r
}

// ---------------------------------------------------------------------
// The task variants
// ---------------------------------------------------------------------
/// A simple task: a command with optional arguments and an optional
/// additive environment overlay.
///
/// In the configuration file:
/// ```text
/// [tasks.my_task]
/// command = "echo"
/// args = ["hello", "world"]
/// ```
#[derive(Debug, Clone)]
pub struct AlchemistBasicTask {
    pub command: String,
    pub args: Option<Vec<String>>,
    /// Environment entries added on top of the inherited environment,
    /// as name/value pairs.
    pub env: Option<Vec<(String, String)>>,
    pub hide: Option<bool>,
}

/// A composite task whose named sub-tasks run strictly in the given
/// order, aborting on the first failure.
///
/// In the configuration file:
/// ```text
/// [tasks.my_task]
/// serial_tasks = ["my_other_task1", "my_other_task2"]
/// hide = false
/// ```
#[derive(Debug, Clone)]
pub struct AlchemistSerialTasks {
    pub serial_tasks: Vec<String>,
    pub hide: Option<bool>,
}

/// A composite task whose named sub-tasks run in parallel; all of them
/// are joined, and their failures are folded into one aggregate error.
///
/// In the configuration file:
/// ```text
/// [tasks.my_task]
/// parallel_tasks = ["my_other_task1", "my_other_task2"]
/// hide = false
/// ```
#[derive(Debug, Clone)]
pub struct AlchemistParallelTasks {
    pub parallel_tasks: Vec<String>,
    pub hide: Option<bool>,
}

/// A task that runs a script through the POSIX shell, `sh -c <script>`;
/// the raw script text is passed as a single argument, never tokenized
/// here.
///
/// In the configuration file:
/// ```text
/// [tasks.my_task]
/// shell_script = '''
/// VAR="value"
/// echo my var is $VAR
/// '''
/// ```
#[derive(Debug, Clone)]
pub struct AlchemistShellTask {
    pub shell_script: String,
    pub hide: Option<bool>,
}

/// The closed union of the task variants held by the registry.
#[derive(Debug, Clone)]
pub enum AlchemistTaskType {
    AlchemistBasicTask(AlchemistBasicTask),
    AlchemistSerialTasks(AlchemistSerialTasks),
    AlchemistParallelTasks(AlchemistParallelTasks),
    AlchemistShellTask(AlchemistShellTask),
}

// ---------------------------------------------------------------------
// Leaf execution: process plans and outcome classification
// ---------------------------------------------------------------------
/// Everything a driver needs to spawn the child process of a leaf
/// task: the program, its arguments in order, and the environment
/// entries to add on top of the inherited environment (inherited
/// variables not named here remain, named ones override). The driver
/// must never mutate its own environment for this.
pub struct ProcessPlan {
    pub program: String,
    pub args: Vec<String>,
    pub env: Vec<(String, String)>,
}

/// How a spawned child process ended, reported back by the driver: the
/// spawn itself failed (binary missing, no permission), the wait for
/// the exit status failed, or the process exited and the flag tells
/// whether its exit status was success.
pub enum ProcessOutcome {
    SpawnFailure(std::io::Error),
    WaitFailure(std::io::Error),
    Exited(bool),
}

/// The message of a command task whose process could not be started.
pub open spec fn basic_spawn_failure_message(task_name: Seq<char>, command_str: Seq<char>) -> Seq<
    char,
> {
    "Starting basic task "@ + task_name + " with command `"@ + command_str
        + "` either not found or insufficient permissions to run."@
}

/// The message of a command task whose process could not be awaited.
pub open spec fn basic_wait_failure_message(task_name: Seq<char>, command_str: Seq<char>) -> Seq<
    char,
> {
    "While running basic task "@ + task_name + ", command `"@ + command_str
        + "` failed to wait(pid) on started process."@
}

/// The message of a command task whose process exited non-zero.
pub open spec fn basic_nonzero_exit_message(task_name: Seq<char>, command_str: Seq<char>) -> Seq<
    char,
> {
    "While running basic task "@ + task_name + ", command `"@ + command_str
        + "` failed (non-zero exit code)."@
}

/// The message of a shell task whose process could not be started.
pub open spec fn shell_spawn_failure_message(task_name: Seq<char>) -> Seq<char> {
    "Failed to start shell script "@ + task_name + "."@
}

/// The message of a shell task whose process could not be awaited.
pub open spec fn shell_wait_failure_message(task_name: Seq<char>) -> Seq<char> {
    "Shell script '"@ + task_name + "' can not be awaited (won't stop)."@
}

/// The message of a shell task whose process exited non-zero.
pub open spec fn shell_nonzero_exit_message(task_name: Seq<char>) -> Seq<char> {
    "Shell script '"@ + task_name + "' exited with non-zero exit code."@
}

/// What a leaf task's run returns for each possible process outcome:
/// success exactly when the process exited zero; a spawn or wait
/// failure keeps the underlying error and adds the context message;
/// a non-zero exit becomes a failed-task error. The message builders
/// tell a command task apart from a shell task.
pub open spec fn leaf_outcome_post(
    outcome: ProcessOutcome,
    spawn_msg: Seq<char>,
    wait_msg: Seq<char>,
    nonzero_msg: Seq<char>,
    r: Result<(), AlchemistError>,
) -> bool {
    match outcome {
        ProcessOutcome::SpawnFailure(e) => {
            &&& r matches Err(AlchemistError::IOErrorVariant(ec))
            &&& ec.0 == e
            &&& ec.1 matches Some(m)
            &&& m@ == spawn_msg
        },
        ProcessOutcome::WaitFailure(e) => {
            &&& r matches Err(AlchemistError::IOErrorVariant(ec))
            &&& ec.0 == e
            &&& ec.1 matches Some(m)
            &&& m@ == wait_msg
        },
        ProcessOutcome::Exited(success) => {
            if success {
                r is Ok
            } else {
                r matches Err(e) && e.is_assertion_with_message(nonzero_msg)
            }
        },
    }
}

/// Builds the error of a failed leaf process from the outcome and the
/// three messages; the outcome must not be a successful exit.
fn leaf_failure(outcome: ProcessOutcome, spawn_msg: String, wait_msg: String, nonzero_msg: String) -> (r:
    AlchemistError)
    requires
        !(outcome matches ProcessOutcome::Exited(s) && s),
    ensures
        leaf_outcome_post(outcome, spawn_msg@, wait_msg@, nonzero_msg@, Err(r)),
{
    match outcome {
        ProcessOutcome::SpawnFailure(e) => AlchemistError::IOErrorVariant(
            ErrorContext(e, Some(spawn_msg)),
        ),
        ProcessOutcome::WaitFailure(e) => AlchemistError::IOErrorVariant(
            ErrorContext(e, Some(wait_msg)),
        ),
        ProcessOutcome::Exited(_) => AlchemistError::AssertionErrorVariant(
            ErrorContext(AssertionError(nonzero_msg), None),
        ),
    }
}

impl AlchemistBasicTask {
    /// The command line shown in messages: the program, then the
    /// arguments separated by spaces, if there are any.
    pub open spec fn command_str_spec(&self) -> Seq<char> {
        match self.args {
            Some(args) => self.command@ + " "@ + join_with(string_views(args@), " "@),
            None => self.command@,
        }
    }

    /// The command line shown in messages.
    pub fn command_str(&self) -> (r: String)
        ensures
            r@ == self.command_str_spec(),
    {
        match &self.args {
            Some(args) => {
                let mut s = self.command.clone();
                s.append(" ");
                let joined = join_strings(args, " ");
                s.append(joined.as_str());
                proof {
                    assert(s@ =~= self.command_str_spec());
                }
                s
            },
            None => self.command.clone(),
        }
    }

    /// The process specification for running the task: its program, its
    /// arguments (none when absent), and its environment overlay
    /// (empty when absent).
    pub fn plan(&self) -> (r: ProcessPlan)
        ensures
            r.program@ == self.command@,
            string_views(r.args@) == (match self.args {
                Some(args) => string_views(args@),
                None => Seq::<Seq<char>>::empty(),
            }),
            pair_views(r.env@) == (match self.env {
                Some(env) => pair_views(env@),
                None => Seq::<(Seq<char>, Seq<char>)>::empty(),
            }),
    {
        let args = match &self.args {
            Some(args) => clone_string_vec(args),
            None => Vec::new(),
        };
        let env = match &self.env {
            Some(env) => clone_pair_vec(env),
            None => Vec::new(),
        };
        proof {
            if self.args is None {
                assert(string_views(args@) =~= Seq::<Seq<char>>::empty());
            }
            if self.env is None {
                assert(pair_views(env@) =~= Seq::<(Seq<char>, Seq<char>)>::empty());
            }
        }
        ProcessPlan { program: self.command.clone(), args, env }
    }

    /// Turns the outcome of the spawned child process into the run's
    /// result: success for a zero exit, and otherwise the error whose
    /// message names the task and its literal command line.
    pub fn classify_outcome(&self, task_name: &str, outcome: ProcessOutcome) -> (r: Result<
        (),
        AlchemistError,
    >)
        ensures
            leaf_outcome_post(
                outcome,
                basic_spawn_failure_message(task_name@, self.command_str_spec()),
                basic_wait_failure_message(task_name@, self.command_str_spec()),
                basic_nonzero_exit_message(task_name@, self.command_str_spec()),
                r,
            ),
    {
        if let ProcessOutcome::Exited(true) = outcome {
            return Ok(());
        }
        let command_str = self.command_str();
        let spawn_msg = concat5(
            "Starting basic task ",
            task_name,
            " with command `",
            command_str.as_str(),
            "` either not found or insufficient permissions to run.",
        );
        let wait_msg = concat5(
            "While running basic task ",
            task_name,
            ", command `",
            command_str.as_str(),
            "` failed to wait(pid) on started process.",
        );
        let nonzero_msg = concat5(
            "While running basic task ",
            task_name,
            ", command `",
            command_str.as_str(),
            "` failed (non-zero exit code).",
        );
        Err(leaf_failure(outcome, spawn_msg, wait_msg, nonzero_msg))
    }
}

impl AlchemistShellTask {
    /// The process specification for running the task: the POSIX shell `sh`
    /// invoked with `-c` and the raw script text as one argument, with
    /// no environment overlay.
    pub fn plan(&self) -> (r: ProcessPlan)
        ensures
            r.program@ == "sh"@,
            string_views(r.args@) == seq!["-c"@, self.shell_script@],
            r.env@.len() == 0,
    {
        let mut args: Vec<String> = Vec::new();
        args.push(String::from_str("-c"));
        args.push(self.shell_script.clone());
        proof {
            assert(string_views(args@) =~= seq!["-c"@, self.shell_script@]);
        }
        ProcessPlan { program: String::from_str("sh"), args, env: Vec::new() }
    }

    /// Turns the outcome of the spawned shell process into the run's
    /// result: success for a zero exit, and otherwise the error whose
    /// message names the task.
    pub fn classify_outcome(&self, task_name: &str, outcome: ProcessOutcome) -> (r: Result<
        (),
        AlchemistError,
    >)
        ensures
            leaf_outcome_post(
                outcome,
                shell_spawn_failure_message(task_name@),
                shell_wait_failure_message(task_name@),
                shell_nonzero_exit_message(task_name@),
                r,
            ),
    {
        if let ProcessOutcome::Exited(true) = outcome {
            return Ok(());
        }
        let spawn_msg = concat5("Failed to start shell script ", task_name, ".", "", "");
        let wait_msg = concat5(
            "Shell script '",
            task_name,
            "' can not be awaited (won't stop).",
            "",
            "",
        );
        let nonzero_msg = concat5(
            "Shell script '",
            task_name,
            "' exited with non-zero exit code.",
            "",
            "",
        );
        proof {
            reveal_strlit("");
            assert(""@ =~= Seq::<char>::empty());
            assert(spawn_msg@ =~= shell_spawn_failure_message(task_name@));
            assert(wait_msg@ =~= shell_wait_failure_message(task_name@));
            assert(nonzero_msg@ =~= shell_nonzero_exit_message(task_name@));
        }
        Err(leaf_failure(outcome, spawn_msg, wait_msg, nonzero_msg))
    }
}

// ---------------------------------------------------------------------
// Composite execution: sequence and parallel decisions
// ---------------------------------------------------------------------
/// The message of a sequence that references a name absent from the
/// registry.
pub open spec fn serial_invalid_subtask_message(task_name: Seq<char>, sub_task_name: Seq<
    char,
>) -> Seq<char> {
    "Serial task '"@ + task_name + "' has an invalid subtask '"@ + sub_task_name + "'"@
}

/// The message of a parallel task that references a name absent from
/// the registry.
pub open spec fn parallel_invalid_subtask_message(task_name: Seq<char>, sub_task_name: Seq<
    char,
>) -> Seq<char> {
    "Parallel task '"@ + task_name + "' has an invalid subtask '"@ + sub_task_name + "'"@
}

/// The single aggregate message under which a parallel task folds the
/// failures of its members.
pub open spec fn parallel_aggregate_message() -> Seq<char> {
    "One or more errors occoured in parallel tasks"@
}

/// What a sequence tells its driver to do next.
pub enum SerialAction {
    /// Resolve and run the named step, then come back with its result.
    RunStep(String),
    /// Stop; the whole sequence fails with this error.
    Abort(AlchemistError),
    /// Every step has succeeded; the sequence is done.
    Finished,
}

/// The contract of [`AlchemistSerialTasks::next_step`]: a failed step
/// aborts the sequence with that error unchanged; otherwise the step
/// declared at `idx` is issued if the registry resolves it, an invalid
/// reference aborts with the exact message, and a sequence whose steps
/// are exhausted is finished.
pub open spec fn serial_step_post(
    t: AlchemistSerialTasks,
    task_name: Seq<char>,
    idx: int,
    prev: Result<(), AlchemistError>,
    cfg: AlchemistConfig,
    r: SerialAction,
) -> bool {
    match prev {
        Err(e) => r matches SerialAction::Abort(e2) && e2 == e,
        Ok(u) => {
            if idx >= t.serial_tasks@.len() {
                r is Finished
            } else {
                let step = t.serial_tasks@[idx]@;
                if registry_contains(cfg, step) {
                    r matches SerialAction::RunStep(n) && n@ == step
                } else {
                    r matches SerialAction::Abort(e) && e.is_assertion_with_message(
                        serial_invalid_subtask_message(task_name, step),
                    )
                }
            }
        },
    }
}

impl AlchemistSerialTasks {
    /// Decides what a sequence does at position `idx`, given the result
    /// `prev` of everything before that position. The driver starts
    /// with `idx = 0` and `prev = Ok(())`, runs each issued step under
    /// the step's own name against the same registry, and calls back
    /// with `idx + 1` and the step's result.
    pub fn next_step(
        &self,
        task_name: &str,
        idx: usize,
        prev: Result<(), AlchemistError>,
        config: &AlchemistConfig,
    ) -> (r: SerialAction)
        ensures
            serial_step_post(*self, task_name@, idx as int, prev, *config, r),
    {
        match prev {
            Err(e) => SerialAction::Abort(e),
            Ok(_) => {
                if idx >= self.serial_tasks.len() {
                    SerialAction::Finished
                } else {
                    let step = &self.serial_tasks[idx];
                    match crate::config::resolve(config, step.as_str()) {
                        Some(_) => SerialAction::RunStep(step.clone()),
                        None => {
                            let msg = concat5(
                                "Serial task '",
                                task_name,
                                "' has an invalid subtask '",
                                step.as_str(),
                                "'",
                            );
                            SerialAction::Abort(
                                AlchemistError::AssertionErrorVariant(
                                    ErrorContext(AssertionError(msg), None),
                                ),
                            )
                        },
                    }
                }
            },
        }
    }
}

/// What a parallel task tells its driver during its spawn loop.
pub enum SpawnAction {
    /// Resolve the named member and start it on its own thread.
    SpawnStep(String),
    /// Stop spawning; after joining what was already spawned, the whole
    /// task fails with this error.
    Abort(AlchemistError),
    /// Every member has been spawned; join them all and hand their
    /// results to [`aggregate_parallel_results`].
    AllSpawned,
}

/// The contract of [`AlchemistParallelTasks::next_spawn`]: the member
/// declared at `idx` is spawned if the registry resolves it, an invalid
/// reference aborts the spawn loop with the exact message, and once the
/// members are exhausted everything has been spawned.
pub open spec fn parallel_spawn_post(
    t: AlchemistParallelTasks,
    task_name: Seq<char>,
    idx: int,
    cfg: AlchemistConfig,
    r: SpawnAction,
) -> bool {
    if idx >= t.parallel_tasks@.len() {
        r is AllSpawned
    } else {
        let member = t.parallel_tasks@[idx]@;
        if registry_contains(cfg, member) {
            r matches SpawnAction::SpawnStep(n) && n@ == member
        } else {
            r matches SpawnAction::Abort(e) && e.is_assertion_with_message(
                parallel_invalid_subtask_message(task_name, member),
            )
        }
    }
}

impl AlchemistParallelTasks {
    /// Decides what a parallel task does at position `idx` of its spawn
    /// loop. The driver starts with `idx = 0`; for each issued member
    /// it starts an independent thread that runs the member under its
    /// own name against the same (shared, read-only) registry, and
    /// calls back with `idx + 1`. Threads already started are joined
    /// even when a later member aborts the loop.
    pub fn next_spawn(&self, task_name: &str, idx: usize, config: &AlchemistConfig) -> (r:
        SpawnAction)
        ensures
            parallel_spawn_post(*self, task_name@, idx as int, *config, r),
    {
        if idx >= self.parallel_tasks.len() {
            SpawnAction::AllSpawned
        } else {
            let member = &self.parallel_tasks[idx];
            match crate::config::resolve(config, member.as_str()) {
                Some(_) => SpawnAction::SpawnStep(member.clone()),
                None => {
                    let msg = concat5(
                        "Parallel task '",
                        task_name,
                        "' has an invalid subtask '",
                        member.as_str(),
                        "'",
                    );
                    SpawnAction::Abort(
                        AlchemistError::AssertionErrorVariant(
                            ErrorContext(AssertionError(msg), None),
                        ),
                    )
                },
            }
        }
    }
}

/// The contract of [`aggregate_parallel_results`]: success exactly when
/// every joined member succeeded, and otherwise the single aggregate
/// error (the members' own errors survive only in the log stream).
pub open spec fn aggregate_post(
    results: Seq<Result<(), AlchemistError>>,
    r: Result<(), AlchemistError>,
) -> bool {
    &&& r is Ok <==> (forall|i: int| 0 <= i < results.len() ==> results[i] is Ok)
    &&& r matches Err(e) ==> e.is_assertion_with_message(parallel_aggregate_message())
}

/// Folds the joined members' results into the parallel task's own
/// result: success when all succeeded, else one aggregate failed-task
/// error; the per-member errors are deliberately not part of the
/// return value.
pub fn aggregate_parallel_results(results: &Vec<Result<(), AlchemistError>>) -> (r: Result<
    (),
    AlchemistError,
>)
    ensures
        aggregate_post(results@, r),
{
    let mut has_error = false;
    let mut i: usize = 0;
    while i < results.len()
        invariant
            i <= results@.len(),
            has_error <==> (exists|j: int| 0 <= j < i && results@[j] is Err),
        decreases results@.len() - i,
    {
        if results[i].is_err() {
            has_error = true;
        }
        i = i + 1;
    }
    if has_error {
        Err(
            AlchemistError::AssertionErrorVariant(
                ErrorContext(
                    AssertionError(String::from_str("One or more errors occoured in parallel tasks")),
                    None,
                ),
            ),
        )
    } else {
        Ok(())
    }
}

// ---------------------------------------------------------------------
// Descriptions and listing visibility
// ---------------------------------------------------------------------
/// The uniform description contract of every task variant: a static,
/// human-readable summary with no side effects.
pub trait RunnableTask {
    /// What the summary reads.
    spec fn describe_spec(&self) -> Seq<char>;

    /// Produces the static, human-readable summary of the task.
    fn describe(&self) -> (r: String)
        ensures
            r@ == self.describe_spec(),
    ;
}

impl RunnableTask for AlchemistBasicTask {
    open spec fn describe_spec(&self) -> Seq<char> {
        self.command@ + " "@ + join_with(
            match self.args {
                Some(args) => string_views(args@),
                None => Seq::<Seq<char>>::empty(),
            },
            " "@,
        )
    }

    fn describe(&self) -> (r: String) {
        let mut s = self.command.clone();
        s.append(" ");
        let joined = match &self.args {
            Some(args) => join_strings(args, " "),
            None => String::new(),
        };
        s.append(joined.as_str());
        proof {
            if self.args is None {
                assert(string_views(Seq::<String>::empty()) =~= Seq::<Seq<char>>::empty());
            }
            assert(s@ =~= self.describe_spec());
        }
        s
    }
}

impl RunnableTask for AlchemistSerialTasks {
    open spec fn describe_spec(&self) -> Seq<char> {
        "SERIAL: "@ + join_with(string_views(self.serial_tasks@), " -> "@)
    }

    fn describe(&self) -> (r: String) {
        let mut s = String::from_str("SERIAL: ");
        let joined = join_strings(&self.serial_tasks, " -> ");
        s.append(joined.as_str());
        s
    }
}

impl RunnableTask for AlchemistParallelTasks {
    open spec fn describe_spec(&self) -> Seq<char> {
        "PARALLEL: "@ + join_with(string_views(self.parallel_tasks@), " & "@)
    }

    fn describe(&self) -> (r: String) {
        let mut s = String::from_str("PARALLEL: ");
        let joined = join_strings(&self.parallel_tasks, " & ");
        s.append(joined.as_str());
        s
    }
}

impl RunnableTask for AlchemistShellTask {
    open spec fn describe_spec(&self) -> Seq<char> {
        "Shell: \n"@ + self.shell_script@ + "\n"@
    }

    fn describe(&self) -> (r: String) {
        let mut s = String::from_str("Shell: \n");
        s.append(self.shell_script.as_str());
        s.append("\n");
        proof {
            assert(s@ =~= self.describe_spec());
        }
        s
    }
}

impl RunnableTask for AlchemistTaskType {
    open spec fn describe_spec(&self) -> Seq<char> {
        match self {
            AlchemistTaskType::AlchemistBasicTask(task) => task.describe_spec(),
            AlchemistTaskType::AlchemistSerialTasks(task) => task.describe_spec(),
            AlchemistTaskType::AlchemistParallelTasks(task) => task.describe_spec(),
            AlchemistTaskType::AlchemistShellTask(task) => task.describe_spec(),
        }
    }

    fn describe(&self) -> (r: String) {
        match self {
            AlchemistTaskType::AlchemistBasicTask(task) => task.describe(),
            AlchemistTaskType::AlchemistSerialTasks(task) => task.describe(),
            AlchemistTaskType::AlchemistParallelTasks(task) => task.describe(),
            AlchemistTaskType::AlchemistShellTask(task) => task.describe(),
        }
    }
}

impl AlchemistTaskType {
    /// Whether listings show the task: every variant is shown unless
    /// its `hide` flag is set. Hiding never affects execution.
    pub open spec fn is_shown_spec(&self) -> bool {
        match self {
            AlchemistTaskType::AlchemistBasicTask(v) => !(v.hide matches Some(true)),
            AlchemistTaskType::AlchemistSerialTasks(v) => !(v.hide matches Some(true)),
            AlchemistTaskType::AlchemistParallelTasks(v) => !(v.hide matches Some(true)),
            AlchemistTaskType::AlchemistShellTask(v) => !(v.hide matches Some(true)),
        }
    }

    /// Whether listings show the task.
    pub fn is_shown(&self) -> (r: bool)
        ensures
            r == self.is_shown_spec(),
    {
        let hide = match self {
            AlchemistTaskType::AlchemistBasicTask(v) => &v.hide,
            AlchemistTaskType::AlchemistSerialTasks(v) => &v.hide,
            AlchemistTaskType::AlchemistParallelTasks(v) => &v.hide,
            AlchemistTaskType::AlchemistShellTask(v) => &v.hide,
        };
        match hide {
            Some(h) => !*h,
            None => true,
        }
    }
}

// ---------------------------------------------------------------------
// Engine laws
// ---------------------------------------------------------------------
/// Law: a sequence short-circuits. Once a step has failed, the decision
/// carries that error unchanged, and no further step is ever issued.
pub proof fn lemma_serial_short_circuit(
    t: AlchemistSerialTasks,
    task_name: Seq<char>,
    idx: int,
    e: AlchemistError,
    cfg: AlchemistConfig,
    r: SerialAction,
)
    requires
        serial_step_post(t, task_name, idx, Err(e), cfg, r),
    ensures
        r matches SerialAction::Abort(e2) && e2 == e,
        !(r matches SerialAction::RunStep(n)),
{
}

/// Law: sequence steps are issued strictly in declared order. While
/// every earlier step has succeeded and the step declared at `idx`
/// resolves, the decision at `idx` is exactly that step.
pub proof fn lemma_serial_order(
    t: AlchemistSerialTasks,
    task_name: Seq<char>,
    idx: int,
    cfg: AlchemistConfig,
    r: SerialAction,
)
    requires
        serial_step_post(t, task_name, idx, Ok(()), cfg, r),
        0 <= idx < t.serial_tasks@.len(),
        registry_contains(cfg, t.serial_tasks@[idx]@),
    ensures
        r matches SerialAction::RunStep(n) && n@ == t.serial_tasks@[idx]@,
{
}

/// Law: a sequence that references a name absent from the registry
/// fails with the invalid-reference error naming both the sequence and
/// the missing step, and that step is never issued.
pub proof fn lemma_serial_invalid_reference(
    t: AlchemistSerialTasks,
    task_name: Seq<char>,
    idx: int,
    cfg: AlchemistConfig,
    r: SerialAction,
)
    requires
        serial_step_post(t, task_name, idx, Ok(()), cfg, r),
        0 <= idx < t.serial_tasks@.len(),
        !registry_contains(cfg, t.serial_tasks@[idx]@),
    ensures
        r matches SerialAction::Abort(e) && e.is_assertion_with_message(
            serial_invalid_subtask_message(task_name, t.serial_tasks@[idx]@),
        ),
        !(r matches SerialAction::RunStep(n)),
{
}

/// Law: empty composites succeed trivially. A sequence with no steps is
/// finished at once, and a parallel task with no members spawns nothing
/// and aggregates an empty result list into success.
pub proof fn lemma_empty_composites_succeed(
    s: AlchemistSerialTasks,
    p: AlchemistParallelTasks,
    task_name: Seq<char>,
    cfg: AlchemistConfig,
    rs: SerialAction,
    rp: SpawnAction,
    agg: Result<(), AlchemistError>,
)
    requires
        s.serial_tasks@.len() == 0,
        p.parallel_tasks@.len() == 0,
        serial_step_post(s, task_name, 0, Ok(()), cfg, rs),
        parallel_spawn_post(p, task_name, 0, cfg, rp),
        aggregate_post(Seq::empty(), agg),
    ensures
        rs is Finished,
        rp is AllSpawned,
        agg is Ok,
{
}

/// Law: parallel members are spawned in declared order, and a member
/// that resolves is always spawned — only an unresolvable name stops
/// the spawn loop, never the prospect of a member failing at run time.
pub proof fn lemma_parallel_spawn_order(
    t: AlchemistParallelTasks,
    task_name: Seq<char>,
    idx: int,
    cfg: AlchemistConfig,
    r: SpawnAction,
)
    requires
        parallel_spawn_post(t, task_name, idx, cfg, r),
        0 <= idx < t.parallel_tasks@.len(),
        registry_contains(cfg, t.parallel_tasks@[idx]@),
    ensures
        r matches SpawnAction::SpawnStep(n) && n@ == t.parallel_tasks@[idx]@,
{
}

/// Law: a parallel task joins all members and fails as a whole exactly
/// when some member failed; one member's failure neither masks another
/// member's success nor is reported individually — only the aggregate
/// error comes back.
pub proof fn lemma_parallel_join_all(
    results: Seq<Result<(), AlchemistError>>,
    r: Result<(), AlchemistError>,
    i: int,
)
    requires
        aggregate_post(results, r),
        0 <= i < results.len(),
        results[i] is Err,
    ensures
        r matches Err(e) && e.is_assertion_with_message(parallel_aggregate_message()),
{
}

/// Law: the engine's decisions are a function of the registry and the
/// position alone. Two decisions drawn for the same position of the
/// same sequence against the same registry fall the same way: both
/// issue the same step, or both abort with the invalid-reference
/// message, or both finish.
pub proof fn lemma_serial_step_deterministic(
    t: AlchemistSerialTasks,
    task_name: Seq<char>,
    idx: int,
    cfg: AlchemistConfig,
    r1: SerialAction,
    r2: SerialAction,
)
    requires
        serial_step_post(t, task_name, idx, Ok(()), cfg, r1),
        serial_step_post(t, task_name, idx, Ok(()), cfg, r2),
        0 <= idx,
    ensures
        r1 is Finished <==> r2 is Finished,
        r1 matches SerialAction::RunStep(n1) ==> (r2 matches SerialAction::RunStep(n2) && n1@
            == n2@),
        r1 matches SerialAction::Abort(e1) ==> (r2 matches SerialAction::Abort(e2)
            && e1.is_assertion_with_message(
            serial_invalid_subtask_message(task_name, t.serial_tasks@[idx]@),
        ) && e2.is_assertion_with_message(
            serial_invalid_subtask_message(task_name, t.serial_tasks@[idx]@),
        )),
{
}

impl From<AlchemistBasicTask> for AlchemistTaskType {
    fn from(task: AlchemistBasicTask) -> (r: Self) {
        AlchemistTaskType::AlchemistBasicTask(task)
    }
}

impl vstd::std_specs::convert::FromSpecImpl<AlchemistBasicTask> for AlchemistTaskType {
    open spec fn obeys_from_spec() -> bool {
        true
    }

    open spec fn from_spec(task: AlchemistBasicTask) -> Self {
        AlchemistTaskType::AlchemistBasicTask(task)
    }
}

impl From<AlchemistSerialTasks> for AlchemistTaskType {
    fn from(task: AlchemistSerialTasks) -> (r: Self) {
        AlchemistTaskType::AlchemistSerialTasks(task)
    }
}

impl vstd::std_specs::convert::FromSpecImpl<AlchemistSerialTasks> for AlchemistTaskType {
    open spec fn obeys_from_spec() -> bool {
        true
    }

    open spec fn from_spec(task: AlchemistSerialTasks) -> Self {
        AlchemistTaskType::AlchemistSerialTasks(task)
    }
}

impl From<AlchemistParallelTasks> for AlchemistTaskType {
    fn from(task: AlchemistParallelTasks) -> (r: Self) {
        AlchemistTaskType::AlchemistParallelTasks(task)
    }
}

impl vstd::std_specs::convert::FromSpecImpl<AlchemistParallelTasks> for AlchemistTaskType {
    open spec fn obeys_from_spec() -> bool {
        true
    }

    open spec fn from_spec(task: AlchemistParallelTasks) -> Self {
        AlchemistTaskType::AlchemistParallelTasks(task)
    }
}

impl From<AlchemistShellTask> for AlchemistTaskType {
    fn from(task: AlchemistShellTask) -> (r: Self) {
        AlchemistTaskType::AlchemistShellTask(task)
    }
}

impl vstd::std_specs::convert::FromSpecImpl<AlchemistShellTask> for AlchemistTaskType {
    open spec fn obeys_from_spec() -> bool {
        true
    }

    open spec fn from_spec(task: AlchemistShellTask) -> Self {
        AlchemistTaskType::AlchemistShellTask(task)
    }
}

} // verus!

