use jupyter_control::probe::{
    read_interpreter_output, read_interpreter_text, read_package_outcome, DetectionError, Probe, ProbeCommand,
    ProbeStage, ProbeStep, PythonInfo, RunOutcome, INTERPRETER_SCRIPT, JUPYTERLAB_SCRIPT,
    NOTEBOOK_SCRIPT,
};

fn exited(success: bool, stdout: &str) -> RunOutcome {
    RunOutcome::Exited { success, stdout: stdout.as_bytes().to_vec() }
}

fn next(step: ProbeStep) -> Probe {
    match step {
        ProbeStep::Next(probe) => probe,
        ProbeStep::Done(result) => panic!("the probe ended early: {:?}", result),
    }
}

fn done(step: ProbeStep) -> Result<PythonInfo, DetectionError> {
    match step {
        ProbeStep::Done(result) => result,
        ProbeStep::Next(probe) => panic!("the probe goes on: {:?}", probe),
    }
}

fn detect(
    interpreter: &RunOutcome,
    jupyterlab: &RunOutcome,
    notebook: &RunOutcome,
) -> Result<PythonInfo, DetectionError> {
    let probe = next(Probe::start().advance(interpreter));
    let probe = next(probe.advance(jupyterlab));
    done(probe.advance(notebook))
}

fn python_c(script: &str) -> ProbeCommand {
    ProbeCommand {
        program: "python".to_owned(),
        args: vec!["-c".to_owned(), script.to_owned()],
    }
}

#[test]
fn empty_output_reads_unknown_in_every_field() {
    let info = detect(&exited(true, ""), &RunOutcome::LaunchFailed, &RunOutcome::LaunchFailed)
        .unwrap();
    assert_eq!(info.python_version, "unknown");
    assert_eq!(info.python_executable, "unknown");
    assert_eq!(info.platform, "unknown");
}

#[test]
fn missing_lines_read_unknown() {
    assert_eq!(
        read_interpreter_output(b"3.12.1\n"),
        ("3.12.1".to_owned(), "unknown".to_owned(), "unknown".to_owned())
    );
    assert_eq!(
        read_interpreter_output(b"3.12.1\n/usr/bin/python3"),
        ("3.12.1".to_owned(), "/usr/bin/python3".to_owned(), "unknown".to_owned())
    );
}

#[test]
fn fields_are_read_off_a_text_by_line() {
    assert_eq!(
        read_interpreter_text(""),
        ("unknown".to_owned(), "unknown".to_owned(), "unknown".to_owned())
    );
    assert_eq!(
        read_interpreter_text("3.13.0\n/usr/local/bin/python\nmacOS-14.5-arm64"),
        ("3.13.0".to_owned(), "/usr/local/bin/python".to_owned(), "macOS-14.5-arm64".to_owned())
    );
    assert_eq!(
        read_interpreter_text("unknown\n\u{4e2d}\u{6587}\n"),
        ("unknown".to_owned(), "\u{4e2d}\u{6587}".to_owned(), "unknown".to_owned())
    );
}

#[test]
fn three_lines_fill_the_three_fields() {
    assert_eq!(
        read_interpreter_output(b"3.11.4\n/usr/bin/python\nLinux-6.1.0-x86_64-with-glibc2.36\n"),
        (
            "3.11.4".to_owned(),
            "/usr/bin/python".to_owned(),
            "Linux-6.1.0-x86_64-with-glibc2.36".to_owned()
        )
    );
}

#[test]
fn lines_after_the_third_are_ignored() {
    assert_eq!(
        read_interpreter_output(b"a\nb\nc\nd\ne\n"),
        ("a".to_owned(), "b".to_owned(), "c".to_owned())
    );
}

#[test]
fn lines_ended_by_return_and_line_feed_are_read_without_them() {
    assert_eq!(
        read_interpreter_output(b"3.10.0\r\nC:\\Python310\\python.exe\r\nWindows-10\r\n"),
        (
            "3.10.0".to_owned(),
            "C:\\Python310\\python.exe".to_owned(),
            "Windows-10".to_owned()
        )
    );
}

#[test]
fn an_empty_line_is_a_line() {
    assert_eq!(
        read_interpreter_output(b"\n\nLinux\n"),
        ("".to_owned(), "".to_owned(), "Linux".to_owned())
    );
}

#[test]
fn bytes_that_are_no_utf8_are_replaced_not_refused() {
    assert_eq!(
        read_interpreter_output(b"3.9.\xff\n/opt/py\xc3\xa9\n"),
        ("3.9.\u{fffd}".to_owned(), "/opt/py\u{e9}".to_owned(), "unknown".to_owned())
    );
}

#[test]
fn the_exit_status_of_the_interpreter_is_not_looked_at() {
    let info = detect(
        &exited(false, "3.8.0\n"),
        &RunOutcome::LaunchFailed,
        &RunOutcome::LaunchFailed,
    )
    .unwrap();
    assert_eq!(info.python_version, "3.8.0");
    assert_eq!(info.python_executable, "unknown");
}

#[test]
fn an_interpreter_that_cannot_be_launched_fails_the_detection() {
    let step = Probe::start().advance(&RunOutcome::LaunchFailed);
    assert_eq!(done(step), Err(DetectionError::InterpreterUnavailable));
}

#[test]
fn a_package_command_that_failed_means_not_installed() {
    assert_eq!(read_package_outcome(&RunOutcome::LaunchFailed), (false, None));
    assert_eq!(read_package_outcome(&exited(false, "")), (false, None));
    assert_eq!(read_package_outcome(&exited(false, "4.0.1\n")), (false, None));
}

#[test]
fn a_package_command_that_succeeded_gives_the_trimmed_version() {
    assert_eq!(read_package_outcome(&exited(true, "4.0.1\n")), (true, Some("4.0.1".to_owned())));
    assert_eq!(
        read_package_outcome(&exited(true, "  7.0.6\r\n")),
        (true, Some("7.0.6".to_owned()))
    );
    assert_eq!(read_package_outcome(&exited(true, "")), (true, Some("".to_owned())));
    assert_eq!(
        read_package_outcome(&RunOutcome::Exited { success: true, stdout: b" 4.\xff ".to_vec() }),
        (true, Some("4.\u{fffd}".to_owned()))
    );
}

#[test]
fn a_full_detection() {
    let info = detect(
        &exited(true, "3.11.4\n/usr/bin/python\nLinux-6.1.0-x86_64\n"),
        &exited(true, "4.0.9\n"),
        &exited(false, ""),
    );
    assert_eq!(
        info,
        Ok(PythonInfo {
            python_version: "3.11.4".to_owned(),
            python_executable: "/usr/bin/python".to_owned(),
            platform: "Linux-6.1.0-x86_64".to_owned(),
            jupyterlab_installed: true,
            jupyterlab_version: Some("4.0.9".to_owned()),
            jupyter_notebook_installed: false,
            jupyter_notebook_version: None,
        })
    );
}

#[test]
fn a_detection_without_packages_still_succeeds() {
    let info = detect(
        &exited(true, "3.11.4\n/usr/bin/python\nLinux\n"),
        &RunOutcome::LaunchFailed,
        &RunOutcome::LaunchFailed,
    )
    .unwrap();
    assert!(!info.jupyterlab_installed);
    assert_eq!(info.jupyterlab_version, None);
    assert!(!info.jupyter_notebook_installed);
    assert_eq!(info.jupyter_notebook_version, None);
}

#[test]
fn installed_flags_go_with_versions() {
    let outcomes = [RunOutcome::LaunchFailed, exited(false, "1.0\n"), exited(true, "1.0\n")];
    for lab in &outcomes {
        for notebook in &outcomes {
            let info = detect(&exited(true, "3.12.0\n"), lab, notebook).unwrap();
            assert_eq!(info.jupyterlab_installed, info.jupyterlab_version.is_some());
            assert_eq!(info.jupyter_notebook_installed, info.jupyter_notebook_version.is_some());
        }
    }
}

#[test]
fn the_three_commands_come_in_order() {
    let probe = Probe::start();
    assert_eq!(probe.stage(), ProbeStage::Interpreter);
    assert_eq!(probe.command(), python_c(INTERPRETER_SCRIPT));
    let probe = next(probe.advance(&exited(true, "3.12.0\n")));
    assert_eq!(probe.stage(), ProbeStage::JupyterLab);
    assert_eq!(probe.command(), python_c(JUPYTERLAB_SCRIPT));
    let probe = next(probe.advance(&RunOutcome::LaunchFailed));
    assert_eq!(probe.stage(), ProbeStage::Notebook);
    assert_eq!(probe.command(), python_c(NOTEBOOK_SCRIPT));
}

#[test]
fn the_scripts_are_the_inline_programs() {
    assert_eq!(
        INTERPRETER_SCRIPT,
        "import sys; import platform; print(f'{sys.version_info.major}.{sys.version_info.minor}.{sys.version_info.micro}'); print(sys.executable); print(platform.platform())"
    );
    assert_eq!(JUPYTERLAB_SCRIPT, "import jupyterlab; print(jupyterlab.__version__)");
    assert_eq!(NOTEBOOK_SCRIPT, "import notebook; print(notebook.__version__)");
}

#[test]
fn the_message_of_a_failed_detection_ends_with_the_cause() {
    assert_eq!(
        DetectionError::InterpreterUnavailable.message("No such file or directory (os error 2)"),
        "\u{68c0}\u{6d4b} Python \u{73af}\u{5883}\u{5931}\u{8d25}: No such file or directory (os error 2)"
    );
    assert_eq!(
        DetectionError::InterpreterUnavailable.message(""),
        "\u{68c0}\u{6d4b} Python \u{73af}\u{5883}\u{5931}\u{8d25}: "
    );
    let cause = "program not found";
    assert_eq!(
        DetectionError::InterpreterUnavailable.message(cause),
        format!("\u{68c0}\u{6d4b} Python \u{73af}\u{5883}\u{5931}\u{8d25}: {}", cause)
    );
}
