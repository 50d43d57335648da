//! A job from request to report: what is checked before the packer runs, what
//! is done in which order, and what its outcome means.

use crate::args::{build_args, in_place, is_in_place, job_args, UpxOptions};
use crate::decode::{gbk_decoded, result_text, RawExecutionResult, RawOutput};
use crate::output::{
    diagnosis, filter_output_lines, format_log, log_note, noteworthy_lines, parse_upx_error,
};
use crate::size::{decimal, decimal_string, format_bytes, formatted_bytes, ratio, ratio_percent};
use crate::text::{borrowed, glue, owned, texts};
use vstd::prelude::*;

verus! {

/// The report on a job.
#[derive(Debug, PartialEq, Eq)]
pub enum JobReport {
    Success {
        output_path: String,
        original_size: u64,
        output_size: u64,
        ratio_percent: u128,
        filtered_log: Vec<String>,
    },
    Failure { diagnosis_text: String },
}

/// What was found when the packer and the input file were looked at.
#[derive(Clone, Copy, Debug, PartialEq, Eq, Structural)]
pub struct ToolProbe {
    /// The packer answered when asked for its version.
    pub runs: bool,
    pub input_exists: bool,
}

/// How running the packer ended.
#[derive(Debug, PartialEq, Eq)]
pub enum RunOutcome {
    /// The packer could not be started; the cause.
    NotStarted(String),
    /// The task that ran the packer did not come back; the cause.
    Aborted(String),
    /// The packer ran to its end.
    Finished(RawOutput),
}

/// What is known of a job so far. Each field is `None` until the action that
/// finds it out has been taken.
#[derive(Debug, PartialEq, Eq)]
pub struct JobFacts {
    /// Where the packer is; `Some(None)` where it is nowhere.
    pub tool: Option<Option<String>>,
    pub probe: Option<ToolProbe>,
    /// Whether the input file is read-only, or why that could not be read.
    pub read_only: Option<Result<bool, String>>,
    /// How the backup copy went; the cause where it failed.
    pub backup: Option<Result<(), String>>,
    /// The size of the input file, where it could be read.
    pub original_size: Option<Option<u64>>,
    pub run: Option<RunOutcome>,
    /// The size of the output file, where it could be read.
    pub output_size: Option<Option<u64>>,
}

/// What to do next for a job.
#[derive(Debug, PartialEq, Eq)]
pub enum JobAction {
    /// Find the packer.
    LocateTool,
    /// Ask the packer at `tool` for its version, and see whether the input
    /// file exists.
    ProbeTool { tool: String },
    /// Read whether the input file is read-only.
    CheckWritable,
    /// Copy the input file to `to`.
    Backup { to: String },
    /// Read the size of the input file.
    MeasureInput,
    /// Run the packer at `tool` with `args`.
    Run { tool: String, args: Vec<String> },
    /// Read the size of the output file.
    MeasureOutput,
    /// The job is over, with this report or for this reason.
    Finish(Result<String, String>),
}

/// What to do next for a job, as contracts speak of it.
pub enum Step {
    LocateTool,
    ProbeTool { tool: Seq<char> },
    CheckWritable,
    Backup { to: Seq<char> },
    MeasureInput,
    Run { tool: Seq<char>, args: Seq<Seq<char>> },
    MeasureOutput,
    Finish(Result<Seq<char>, Seq<char>>),
}

impl View for JobAction {
    type V = Step;

    open spec fn view(&self) -> Step {
        match *self {
            JobAction::LocateTool => Step::LocateTool,
            JobAction::ProbeTool { tool } => Step::ProbeTool { tool: tool@ },
            JobAction::CheckWritable => Step::CheckWritable,
            JobAction::Backup { to } => Step::Backup { to: to@ },
            JobAction::MeasureInput => Step::MeasureInput,
            JobAction::Run { tool, args } => Step::Run { tool: tool@, args: texts(args@) },
            JobAction::MeasureOutput => Step::MeasureOutput,
            JobAction::Finish(result) => Step::Finish(result_text(result)),
        }
    }
}

impl JobFacts {
    /// Nothing is known yet.
    pub fn new() -> (facts: JobFacts)
        ensures
            facts.tool is None,
            facts.probe is None,
            facts.read_only is None,
            facts.backup is None,
            facts.original_size is None,
            facts.run is None,
            facts.output_size is None,
    {
        JobFacts {
            tool: None,
            probe: None,
            read_only: None,
            backup: None,
            original_size: None,
            run: None,
            output_size: None,
        }
    }
}

/// A size that could not be read counts as zero.
pub open spec fn size_or_zero(size: Option<u64>) -> u64 {
    match size {
        Some(n) => n,
        None => 0,
    }
}

/// The report of a success, as the user reads it.
pub open spec fn success_text(
    output_path: Seq<char>,
    original_size: u64,
    output_size: u64,
    percent: nat,
    log: Seq<Seq<char>>,
) -> Seq<char> {
    "操作成功!\n输出: "@ + output_path + "\n原始大小: "@ + formatted_bytes(original_size)
        + "\n处理后大小: "@ + formatted_bytes(output_size) + "\n压缩率: "@ + decimal(percent) + "%"@
        + log_note(log)
}

/// What a run of the packer comes to: the report of a success where it
/// exited with success, the diagnosis of what it printed where it did not.
pub open spec fn run_result(
    stdout: Seq<char>,
    stderr: Seq<char>,
    success: bool,
    output_path: Seq<char>,
    original_size: u64,
    output_size: u64,
) -> Result<Seq<char>, Seq<char>> {
    if success {
        Ok(
            success_text(
                output_path,
                original_size,
                output_size,
                ratio(original_size, output_size),
                noteworthy_lines(stdout + stderr),
            ),
        )
    } else {
        Err(diagnosis(stdout, stderr))
    }
}

impl JobReport {
    /// The report as the caller gets it: the text of a success, or the
    /// diagnosis of a failure.
    pub open spec fn text(self) -> Result<Seq<char>, Seq<char>> {
        match self {
            JobReport::Success {
                output_path,
                original_size,
                output_size,
                ratio_percent,
                filtered_log,
            } => Ok(
                success_text(
                    output_path@,
                    original_size,
                    output_size,
                    ratio_percent as nat,
                    texts(filtered_log@),
                ),
            ),
            JobReport::Failure { diagnosis_text } => Err(diagnosis_text@),
        }
    }

    /// The report as the caller gets it.
    pub fn into_result(self) -> (result: Result<String, String>)
        ensures
            result_text(result) == self.text(),
    {
        match self {
            JobReport::Success {
                output_path,
                original_size,
                output_size,
                ratio_percent,
                filtered_log,
            } => {
                let text = glue("操作成功!\n输出: ", output_path.as_str()).concat(
                    "\n原始大小: ",
                ).concat(format_bytes(original_size).as_str()).concat("\n处理后大小: ").concat(
                    format_bytes(output_size).as_str(),
                ).concat("\n压缩率: ").concat(decimal_string(ratio_percent).as_str()).concat(
                    "%",
                ).concat(format_log(&borrowed(&filtered_log)).as_str());
                Ok(text)
            },
            JobReport::Failure { diagnosis_text } => Err(diagnosis_text),
        }
    }
}

/// The report on a run of the packer. Where it exited with success: the
/// sizes, their ratio and the lines worth showing. Where it did not: the
/// diagnosis of what it printed.
pub fn classify(
    result: &RawExecutionResult,
    output_path: &str,
    original_size: u64,
    output_size: u64,
) -> (report: JobReport)
    ensures
        match report {
            JobReport::Success {
                output_path: path,
                original_size: original,
                output_size: output,
                ratio_percent,
                filtered_log,
            } => {
                &&& result.exit_success
                &&& path@ == output_path@
                &&& original == original_size
                &&& output == output_size
                &&& ratio_percent == ratio(original_size, output_size)
                &&& texts(filtered_log@) == noteworthy_lines(
                    result.decoded_stdout@ + result.decoded_stderr@,
                )
            },
            JobReport::Failure { diagnosis_text } => {
                &&& !result.exit_success
                &&& diagnosis_text@ == diagnosis(result.decoded_stdout@, result.decoded_stderr@)
            },
        },
        report.text() == run_result(
            result.decoded_stdout@,
            result.decoded_stderr@,
            result.exit_success,
            output_path@,
            original_size,
            output_size,
        ),
{
    if result.exit_success {
        let combined = glue(result.decoded_stdout.as_str(), result.decoded_stderr.as_str());
        JobReport::Success {
            output_path: String::from_str(output_path),
            original_size,
            output_size,
            ratio_percent: ratio_percent(original_size, output_size),
            filtered_log: owned(&filter_output_lines(combined.as_str())),
        }
    } else {
        JobReport::Failure {
            diagnosis_text: parse_upx_error(
                result.decoded_stdout.as_str(),
                result.decoded_stderr.as_str(),
            ),
        }
    }
}

/// What the look at the packer and at the input file comes to: the packer
/// must run and the input file must be there.
pub open spec fn validation(runs: bool, input_exists: bool, input_file: Seq<char>) -> Result<
    (),
    Seq<char>,
> {
    if !runs {
        Err("UPX 工具无法执行！"@)
    } else if !input_exists {
        Err("输入文件不存在: "@ + input_file)
    } else {
        Ok(())
    }
}

/// What the look at the attributes of a file comes to: they must be readable
/// and the file must not be read-only.
pub open spec fn writability(read_only: Result<bool, String>) -> Result<(), Seq<char>> {
    match read_only {
        Err(cause) => Err("无法读取文件属性: "@ + cause@),
        Ok(true) => Err("文件为只读，请先修改文件属性"@),
        Ok(false) => Ok(()),
    }
}

/// Where the backup copy of `file` goes.
pub open spec fn backup_name(file: Seq<char>) -> Seq<char> {
    file + ".bak"@
}

/// What the backup copy comes to.
pub open spec fn backup_result(copied: Result<(), String>) -> Result<(), Seq<char>> {
    match copied {
        Err(cause) => Err("备份文件失败: "@ + cause@),
        Ok(_) => Ok(()),
    }
}

/// The contents of a result that holds a string as its failure.
pub open spec fn failure_text(r: Result<(), String>) -> Result<(), Seq<char>> {
    match r {
        Ok(_) => Ok(()),
        Err(e) => Err(e@),
    }
}

/// Checks that the packer runs and that the input file is there.
pub fn validate_upx_and_file(tool_runs: bool, input_exists: bool, input_file: &str) -> (result:
    Result<(), String>)
    ensures
        failure_text(result) == validation(tool_runs, input_exists, input_file@),
{
    if !tool_runs {
        return Err(String::from_str("UPX 工具无法执行！"));
    }
    if !input_exists {
        return Err(glue("输入文件不存在: ", input_file));
    }
    Ok(())
}

/// Checks that a file can be written over, from whether it is read-only or
/// why that could not be read.
pub fn validate_file_writable(read_only: &Result<bool, String>) -> (result: Result<(), String>)
    ensures
        failure_text(result) == writability(*read_only),
{
    match read_only {
        Err(cause) => Err(glue("无法读取文件属性: ", cause.as_str())),
        Ok(true) => Err(String::from_str("文件为只读，请先修改文件属性")),
        Ok(false) => Ok(()),
    }
}

/// Where the backup copy of `file` goes.
pub fn backup_path(file: &str) -> (path: String)
    ensures
        path@ == backup_name(file@),
{
    glue(file, ".bak")
}

/// What the backup copy comes to, from how copying went.
pub fn create_backup(copied: &Result<(), String>) -> (result: Result<(), String>)
    ensures
        failure_text(result) == backup_result(*copied),
{
    match copied {
        Err(cause) => Err(glue("备份文件失败: ", cause.as_str())),
        Ok(_) => Ok(()),
    }
}

/// What a job comes to once the packer was run, or could not be.
pub open spec fn execution(
    run: RunOutcome,
    output_file: Seq<char>,
    original_size: u64,
    output_size: Option<u64>,
) -> Result<Seq<char>, Seq<char>> {
    match run {
        RunOutcome::NotStarted(cause) => Err("执行 UPX 命令失败: "@ + cause@),
        RunOutcome::Aborted(cause) => Err("任务执行错误: "@ + cause@),
        RunOutcome::Finished(raw) => run_result(
            gbk_decoded(raw.stdout@),
            gbk_decoded(raw.stderr@),
            raw.success,
            output_file,
            original_size,
            size_or_zero(output_size),
        ),
    }
}

/// Whether what the packer printed can be decoded.
pub open spec fn run_decodable(run: RunOutcome) -> bool {
    run matches RunOutcome::Finished(raw) ==> raw.decodable()
}

/// The report on a job once the packer was run, or could not be. A packer
/// that could not be started is a failure of its own; else what it printed is
/// decoded and the run classified. An output file whose size could not be
/// read counts as empty.
pub fn execute_upx(
    run: &RunOutcome,
    output_file: &str,
    original_size: u64,
    output_size: Option<u64>,
) -> (result: Result<String, String>)
    requires
        run_decodable(*run),
    ensures
        result_text(result) == execution(*run, output_file@, original_size, output_size),
{
    match run {
        RunOutcome::NotStarted(cause) => Err(glue("执行 UPX 命令失败: ", cause.as_str())),
        RunOutcome::Aborted(cause) => Err(glue("任务执行错误: ", cause.as_str())),
        RunOutcome::Finished(raw) => {
            let decoded = raw.decode();
            let size = match output_size {
                Some(n) => n,
                None => 0,
            };
            classify(&decoded, output_file, original_size, size).into_result()
        },
    }
}

/// What to do once the packer was run: read the size of the output file
/// where the run was a success and the size is not known yet, else finish.
pub open spec fn after_run(options: UpxOptions, facts: JobFacts, run: RunOutcome) -> Step {
    if run matches RunOutcome::Finished(raw) && raw.success && facts.output_size is None {
        Step::MeasureOutput
    } else {
        Step::Finish(
            execution(
                run,
                options.output_file@,
                size_or_zero(facts.original_size->0),
                match facts.output_size {
                    Some(size) => size,
                    None => None,
                },
            ),
        )
    }
}

/// What to do once the backup is made, or none was asked for: read the size
/// of the input file, then run the packer; a mode that is neither
/// `compress` nor `decompress` ends the job.
pub open spec fn after_backup(options: UpxOptions, facts: JobFacts, tool: Seq<char>) -> Step {
    if facts.original_size is None {
        Step::MeasureInput
    } else {
        match job_args(options) {
            None => Step::Finish(Err("未知的操作模式"@)),
            Some(args) => match facts.run {
                None => Step::Run { tool, args },
                Some(run) => after_run(options, facts, run),
            },
        }
    }
}

/// What to do once the input file is known to be writable, or need not be:
/// make the backup where one was asked for.
pub open spec fn after_writable(options: UpxOptions, facts: JobFacts, tool: Seq<char>) -> Step {
    if options.backup {
        match facts.backup {
            None => Step::Backup { to: backup_name(options.input_file@) },
            Some(copied) => match backup_result(copied) {
                Err(why) => Step::Finish(Err(why)),
                Ok(_) => after_backup(options, facts, tool),
            },
        }
    } else {
        after_backup(options, facts, tool)
    }
}

/// What to do once the packer and the input file passed: a job in place
/// needs an input file that is not read-only.
pub open spec fn after_validation(options: UpxOptions, facts: JobFacts, tool: Seq<char>) -> Step {
    if in_place(options) {
        match facts.read_only {
            None => Step::CheckWritable,
            Some(read_only) => match writability(read_only) {
                Err(why) => Step::Finish(Err(why)),
                Ok(_) => after_writable(options, facts, tool),
            },
        }
    } else {
        after_writable(options, facts, tool)
    }
}

/// What to do next for the job `options`, given what is known so far. The
/// order is fixed: find the packer; see that it runs and that the input file
/// exists; for a job in place, see that the input file is not read-only; make
/// the backup where one was asked for; read the size of the input file; run
/// the packer; after a success, read the size of the output file; report.
/// Whatever fails on the way ends the job there.
pub open spec fn next_step(options: UpxOptions, facts: JobFacts) -> Step {
    match facts.tool {
        None => Step::LocateTool,
        Some(None) => Step::Finish(Err("未找到 UPX 工具！请确保安装完整"@)),
        Some(Some(tool)) => match facts.probe {
            None => Step::ProbeTool { tool: tool@ },
            Some(probe) => match validation(probe.runs, probe.input_exists, options.input_file@) {
                Err(why) => Step::Finish(Err(why)),
                Ok(_) => after_validation(options, facts, tool@),
            },
        },
    }
}

/// The packer is run only when all that comes before it has passed: it was
/// found, it runs, the input file exists and, for a job in place, is not
/// read-only, the backup that was asked for is made, the size of the input
/// file was read and the mode is known; and it is run once, with the
/// arguments of the job.
pub proof fn lemma_run_is_guarded(options: UpxOptions, facts: JobFacts)
    requires
        next_step(options, facts) is Run,
    ensures
        facts.tool matches Some(Some(tool)) && next_step(options, facts) == (Step::Run {
            tool: tool@,
            args: job_args(options)->0,
        }),
        job_args(options) is Some,
        facts.probe matches Some(probe) && probe.runs && probe.input_exists,
        in_place(options) ==> facts.read_only == Some(Ok::<bool, String>(false)),
        options.backup ==> facts.backup matches Some(Ok(_)),
        facts.original_size is Some,
        facts.run is None,
{
}

/// Every step but the last asks for something that is not known yet: a
/// caller that finds out what it is asked for, and asks again, comes to the
/// end of the job after at most seven steps.
pub proof fn lemma_step_asks_for_unknown(options: UpxOptions, facts: JobFacts)
    ensures
        match next_step(options, facts) {
            Step::LocateTool => facts.tool is None,
            Step::ProbeTool { .. } => facts.probe is None,
            Step::CheckWritable => facts.read_only is None,
            Step::Backup { .. } => facts.backup is None,
            Step::MeasureInput => facts.original_size is None,
            Step::Run { .. } => facts.run is None,
            Step::MeasureOutput => facts.output_size is None,
            Step::Finish(_) => true,
        },
{
}

/// A failure before the run ends the job: where the packer is missing or
/// does not run, the input file is missing or, for a job in place, is
/// read-only, or the backup that was asked for failed, the next step is to
/// finish with a failure, whatever else is known.
pub proof fn lemma_failed_check_ends_job(options: UpxOptions, facts: JobFacts)
    ensures
        facts.tool == Some(None::<String>) ==> next_step(options, facts) is Finish,
        facts.tool matches Some(Some(_)) ==> (facts.probe matches Some(probe) ==> (!probe.runs
            || !probe.input_exists ==> next_step(options, facts) matches Step::Finish(Err(_)))),
        facts.tool matches Some(Some(_)) ==> (facts.probe matches Some(probe) ==> (
        facts.read_only matches Some(r) ==> (in_place(options) && r != Ok::<bool, String>(false)
            ==> next_step(options, facts) matches Step::Finish(Err(_))))),
        facts.tool matches Some(Some(_)) ==> (facts.probe matches Some(probe) ==> (
        facts.backup matches Some(Err(_)) ==> (options.backup && (in_place(options)
            ==> facts.read_only is Some) ==> next_step(options, facts) matches Step::Finish(
            Err(_),
        )))),
{
}

/// What to do once the backup is made, or none was asked for.
fn plan_run(options: &UpxOptions, facts: &JobFacts, tool: &String) -> (action: JobAction)
    requires
        facts.run matches Some(run) ==> run_decodable(run),
    ensures
        action@ == after_backup(*options, *facts, tool@),
{
    let original_size = match facts.original_size {
        None => {
            return JobAction::MeasureInput;
        },
        Some(Some(n)) => n,
        Some(None) => 0,
    };
    let args = match build_args(options) {
        None => {
            return JobAction::Finish(Err(String::from_str("未知的操作模式")));
        },
        Some(args) => args,
    };
    match &facts.run {
        None => JobAction::Run { tool: tool.clone(), args },
        Some(run) => {
            let succeeded = match run {
                RunOutcome::Finished(raw) => raw.success,
                _ => false,
            };
            match facts.output_size {
                None => if succeeded {
                    JobAction::MeasureOutput
                } else {
                    JobAction::Finish(
                        execute_upx(run, options.output_file.as_str(), original_size, None),
                    )
                },
                Some(size) => JobAction::Finish(
                    execute_upx(run, options.output_file.as_str(), original_size, size),
                ),
            }
        },
    }
}

/// What to do next for the job `options`, given what is known so far.
pub fn process_upx(options: &UpxOptions, facts: &JobFacts) -> (action: JobAction)
    requires
        facts.run matches Some(run) ==> run_decodable(run),
    ensures
        action@ == next_step(*options, *facts),
{
    let tool = match &facts.tool {
        None => {
            return JobAction::LocateTool;
        },
        Some(None) => {
            return JobAction::Finish(Err(String::from_str("未找到 UPX 工具！请确保安装完整")));
        },
        Some(Some(tool)) => tool,
    };
    let probe = match &facts.probe {
        None => {
            return JobAction::ProbeTool { tool: tool.clone() };
        },
        Some(probe) => probe,
    };
    if let Err(why) = validate_upx_and_file(
        probe.runs,
        probe.input_exists,
        options.input_file.as_str(),
    ) {
        return JobAction::Finish(Err(why));
    }
    if is_in_place(options) {
        match &facts.read_only {
            None => {
                return JobAction::CheckWritable;
            },
            Some(read_only) => {
                if let Err(why) = validate_file_writable(read_only) {
                    return JobAction::Finish(Err(why));
                }
            },
        }
    }
    if options.backup {
        match &facts.backup {
            None => {
                return JobAction::Backup { to: backup_path(options.input_file.as_str()) };
            },
            Some(copied) => {
                if let Err(why) = create_backup(copied) {
                    return JobAction::Finish(Err(why));
                }
            },
        }
    }
    plan_run(options, facts, tool)
}

} // verus!
