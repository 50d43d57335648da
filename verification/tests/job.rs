use upx_tools::args::UpxOptions;
use upx_tools::decode::{RawExecutionResult, RawOutput};
use upx_tools::job::{
    backup_path, classify, create_backup, execute_upx, process_upx, validate_file_writable,
    validate_upx_and_file, JobAction, JobFacts, JobReport, RunOutcome, ToolProbe,
};

fn options(mode: &str, input: &str, output: &str) -> UpxOptions {
    UpxOptions {
        mode: mode.to_string(),
        input_file: input.to_string(),
        output_file: output.to_string(),
        compression_level: "9".to_string(),
        backup: false,
        ultra_brute: false,
        force: false,
    }
}

fn nothing_known() -> JobFacts {
    JobFacts::new()
}

fn finished(stdout: &str, stderr: &str, success: bool) -> RunOutcome {
    RunOutcome::Finished(RawOutput {
        stdout: stdout.as_bytes().to_vec(),
        stderr: stderr.as_bytes().to_vec(),
        success,
    })
}

fn is_finish(action: &JobAction, expected: Result<&str, &str>) -> bool {
    match (action, expected) {
        (JobAction::Finish(Ok(text)), Ok(e)) => text == e,
        (JobAction::Finish(Err(text)), Err(e)) => text == e,
        _ => false,
    }
}

#[test]
fn validation_wants_a_running_packer_first() {
    assert_eq!(validate_upx_and_file(false, true, "a.exe"), Err("UPX 工具无法执行！".to_string()));
    assert_eq!(validate_upx_and_file(false, false, "a.exe"), Err("UPX 工具无法执行！".to_string()));
    assert_eq!(
        validate_upx_and_file(true, false, "C:\\x\\a.exe"),
        Err("输入文件不存在: C:\\x\\a.exe".to_string())
    );
    assert_eq!(validate_upx_and_file(true, true, "a.exe"), Ok(()));
}

#[test]
fn read_only_files_are_refused() {
    assert_eq!(validate_file_writable(&Ok(false)), Ok(()));
    assert_eq!(validate_file_writable(&Ok(true)), Err("文件为只读，请先修改文件属性".to_string()));
    assert_eq!(
        validate_file_writable(&Err("access denied".to_string())),
        Err("无法读取文件属性: access denied".to_string())
    );
}

#[test]
fn backups_go_beside_the_input() {
    assert_eq!(backup_path("a.exe"), "a.exe.bak");
    assert_eq!(backup_path(""), ".bak");
    assert_eq!(create_backup(&Ok(())), Ok(()));
    assert_eq!(create_backup(&Err("disk full".to_string())), Err("备份文件失败: disk full".to_string()));
}

#[test]
fn success_is_reported_with_sizes_and_ratio() {
    let result = RawExecutionResult {
        decoded_stdout: "UPX 4.2.2\nPacked 1 file.\n".to_string(),
        decoded_stderr: "".to_string(),
        exit_success: true,
    };
    let report = classify(&result, "b.exe", 1000, 400);
    match &report {
        JobReport::Success { output_path, original_size, output_size, ratio_percent, filtered_log } => {
            assert_eq!(output_path, "b.exe");
            assert_eq!(*original_size, 1000);
            assert_eq!(*output_size, 400);
            assert_eq!(*ratio_percent, 40);
            assert_eq!(filtered_log, &vec!["Packed 1 file.".to_string()]);
        }
        JobReport::Failure { .. } => panic!("a success was expected"),
    }
    assert_eq!(
        report.into_result(),
        Ok("操作成功!\n输出: b.exe\n原始大小: 1000 bytes\n处理后大小: 400 bytes\n压缩率: 40%\n\nUPX 输出:\nPacked 1 file.".to_string())
    );
}

#[test]
fn success_without_noteworthy_lines_has_no_log() {
    let result = RawExecutionResult {
        decoded_stdout: "".to_string(),
        decoded_stderr: "".to_string(),
        exit_success: true,
    };
    assert_eq!(
        classify(&result, "out.dll", 0, 2048).into_result(),
        Ok("操作成功!\n输出: out.dll\n原始大小: 0 bytes\n处理后大小: 2.00 KB\n压缩率: 100%".to_string())
    );
}

#[test]
fn failure_is_diagnosed() {
    let result = RawExecutionResult {
        decoded_stdout: "".to_string(),
        decoded_stderr: "upx: a.exe: NotPackedException: not packed by UPX".to_string(),
        exit_success: false,
    };
    match classify(&result, "b.exe", 1000, 400) {
        JobReport::Failure { diagnosis_text } => {
            assert!(diagnosis_text.starts_with("[错误] 文件未被 UPX 加壳，无法脱壳"))
        }
        JobReport::Success { .. } => panic!("a failure was expected"),
    }
}

#[test]
fn a_packer_that_does_not_start_is_its_own_failure() {
    assert_eq!(
        execute_upx(&RunOutcome::NotStarted("not found".to_string()), "b.exe", 10, None),
        Err("执行 UPX 命令失败: not found".to_string())
    );
    assert_eq!(
        execute_upx(&RunOutcome::Aborted("panicked".to_string()), "b.exe", 10, None),
        Err("任务执行错误: panicked".to_string())
    );
}

#[test]
fn unreadable_output_size_counts_as_zero() {
    assert_eq!(
        execute_upx(&finished("", "", true), "b.exe", 1000, None),
        Ok("操作成功!\n输出: b.exe\n原始大小: 1000 bytes\n处理后大小: 0 bytes\n压缩率: 0%".to_string())
    );
}

#[test]
fn output_is_decoded_as_gbk() {
    // "压缩完成" in GBK
    let stdout = vec![0xd1, 0xb9, 0xcb, 0xf5, 0xcd, 0xea, 0xb3, 0xc9, b'\n'];
    let run = RunOutcome::Finished(RawOutput { stdout, stderr: vec![], success: true });
    assert_eq!(
        execute_upx(&run, "b.exe", 2048, Some(1024)),
        Ok("操作成功!\n输出: b.exe\n原始大小: 2.00 KB\n处理后大小: 1.00 KB\n压缩率: 50%\n\nUPX 输出:\n压缩完成".to_string())
    );
}

#[test]
fn a_job_runs_through_its_steps() {
    let mut o = options("compress", "a.exe", "a.exe");
    o.backup = true;
    let mut facts = nothing_known();
    assert!(matches!(process_upx(&o, &facts), JobAction::LocateTool));
    facts.tool = Some(Some("C:\\upx.exe".to_string()));
    match process_upx(&o, &facts) {
        JobAction::ProbeTool { tool } => assert_eq!(tool, "C:\\upx.exe"),
        _ => panic!("the packer should be probed"),
    }
    facts.probe = Some(ToolProbe { runs: true, input_exists: true });
    assert!(matches!(process_upx(&o, &facts), JobAction::CheckWritable));
    facts.read_only = Some(Ok(false));
    match process_upx(&o, &facts) {
        JobAction::Backup { to } => assert_eq!(to, "a.exe.bak"),
        _ => panic!("the backup should be made"),
    }
    facts.backup = Some(Ok(()));
    assert!(matches!(process_upx(&o, &facts), JobAction::MeasureInput));
    facts.original_size = Some(Some(1000));
    match process_upx(&o, &facts) {
        JobAction::Run { tool, args } => {
            assert_eq!(tool, "C:\\upx.exe");
            assert_eq!(args, vec!["-9", "a.exe", "--force-overwrite"]);
        }
        _ => panic!("the packer should be run"),
    }
    facts.run = Some(finished("Packed 1 file.\n", "", true));
    assert!(matches!(process_upx(&o, &facts), JobAction::MeasureOutput));
    facts.output_size = Some(Some(400));
    assert!(is_finish(
        &process_upx(&o, &facts),
        Ok("操作成功!\n输出: a.exe\n原始大小: 1000 bytes\n处理后大小: 400 bytes\n压缩率: 40%\n\nUPX 输出:\nPacked 1 file.")
    ));
}

#[test]
fn a_job_with_another_output_skips_the_writable_check() {
    let o = options("decompress", "a.exe", "b.exe");
    let mut facts = nothing_known();
    facts.tool = Some(Some("upx".to_string()));
    facts.probe = Some(ToolProbe { runs: true, input_exists: true });
    assert!(matches!(process_upx(&o, &facts), JobAction::MeasureInput));
    facts.original_size = Some(None);
    match process_upx(&o, &facts) {
        JobAction::Run { args, .. } => {
            assert_eq!(args, vec!["-d", "a.exe", "-o", "b.exe", "--force-overwrite"])
        }
        _ => panic!("the packer should be run"),
    }
    facts.run = Some(finished("", "upx: a.exe: NotPackedException: not packed by UPX", false));
    match process_upx(&o, &facts) {
        JobAction::Finish(Err(why)) => assert!(why.starts_with("[错误] 文件未被 UPX 加壳，无法脱壳")),
        _ => panic!("the job should fail"),
    }
}

#[test]
fn a_missing_packer_ends_the_job() {
    let o = options("compress", "a.exe", "b.exe");
    let mut facts = nothing_known();
    facts.tool = Some(None);
    assert!(is_finish(&process_upx(&o, &facts), Err("未找到 UPX 工具！请确保安装完整")));
}

#[test]
fn failed_checks_end_the_job_before_the_run() {
    let mut o = options("compress", "a.exe", "a.exe");
    o.backup = true;
    let mut facts = nothing_known();
    facts.tool = Some(Some("upx".to_string()));
    facts.probe = Some(ToolProbe { runs: false, input_exists: true });
    assert!(is_finish(&process_upx(&o, &facts), Err("UPX 工具无法执行！")));
    facts.probe = Some(ToolProbe { runs: true, input_exists: false });
    assert!(is_finish(&process_upx(&o, &facts), Err("输入文件不存在: a.exe")));
    facts.probe = Some(ToolProbe { runs: true, input_exists: true });
    facts.read_only = Some(Ok(true));
    assert!(is_finish(&process_upx(&o, &facts), Err("文件为只读，请先修改文件属性")));
    facts.read_only = Some(Err("gone".to_string()));
    assert!(is_finish(&process_upx(&o, &facts), Err("无法读取文件属性: gone")));
    facts.read_only = Some(Ok(false));
    facts.backup = Some(Err("disk full".to_string()));
    assert!(is_finish(&process_upx(&o, &facts), Err("备份文件失败: disk full")));
    // whatever else is known
    facts.original_size = Some(Some(1));
    facts.run = Some(finished("", "", true));
    facts.output_size = Some(Some(1));
    assert!(is_finish(&process_upx(&o, &facts), Err("备份文件失败: disk full")));
}

#[test]
fn an_unknown_mode_ends_the_job_after_the_size_was_read() {
    let mut o = options("shrink", "a.exe", "b.exe");
    o.backup = true;
    let mut facts = nothing_known();
    facts.tool = Some(Some("upx".to_string()));
    facts.probe = Some(ToolProbe { runs: true, input_exists: true });
    assert!(matches!(process_upx(&o, &facts), JobAction::Backup { .. }));
    facts.backup = Some(Ok(()));
    assert!(matches!(process_upx(&o, &facts), JobAction::MeasureInput));
    facts.original_size = Some(Some(5));
    assert!(is_finish(&process_upx(&o, &facts), Err("未知的操作模式")));
}

#[test]
fn a_failed_launch_ends_the_job() {
    let o = options("compress", "a.exe", "b.exe");
    let mut facts = nothing_known();
    facts.tool = Some(Some("upx".to_string()));
    facts.probe = Some(ToolProbe { runs: true, input_exists: true });
    facts.original_size = Some(Some(5));
    facts.run = Some(RunOutcome::NotStarted("permission denied".to_string()));
    assert!(is_finish(&process_upx(&o, &facts), Err("执行 UPX 命令失败: permission denied")));
}
