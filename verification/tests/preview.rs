use zitefy::services::cleanup::{deletion_report, schedule_delete, DeletionResult};
use zitefy::services::preview::{
    assembled_html, builder_invocation, render_outcome, render_plan, AssemblyError, Preview,
    ProcessResult, RenderError, RenderEvent, RENDER_CLEANUP_DELAY_SECS,
};

fn s(text: &str) -> String {
    text.to_string()
}

#[test]
fn build_uses_default_bindings_when_none_given() {
    let command = builder_invocation("/t/index.html", "/t/styles/styles.css", "/t/js/script.js", None);
    assert_eq!(command.program, "bun");
    assert_eq!(
        command.args,
        vec![
            s("run"),
            s("scripts/builder.js"),
            s("/t/index.html"),
            s("/t/styles/styles.css"),
            s("/t/js/script.js"),
            s("scripts/default.json"),
        ]
    );
}

#[test]
fn build_passes_four_paths_in_order() {
    let command = builder_invocation("a.html", "b.css", "c.js", Some(s("/tmp/d.json")));
    assert_eq!(
        command.args,
        vec![s("run"), s("scripts/builder.js"), s("a.html"), s("b.css"), s("c.js"), s("/tmp/d.json")]
    );
}

#[test]
fn successful_build_yields_its_output() {
    let outcome = ProcessResult::Exited {
        success: true,
        stdout: "<html>h\u{e9}</html>".as_bytes().to_vec(),
        stderr: b"warning".to_vec(),
    };
    match assembled_html(outcome) {
        Ok(html) => assert_eq!(html, "<html>h\u{e9}</html>"),
        Err(_) => panic!("the build succeeded"),
    }
}

#[test]
fn failed_build_reports_its_error_stream() {
    let outcome = ProcessResult::Exited {
        success: false,
        stdout: b"<html></html>".to_vec(),
        stderr: b"no such file".to_vec(),
    };
    match assembled_html(outcome) {
        Err(AssemblyError::ProcessFailed(message)) => assert_eq!(message, "no such file"),
        _ => panic!("the build failed"),
    }
}

#[test]
fn failed_build_with_garbled_error_stream() {
    let outcome = ProcessResult::Exited {
        success: false,
        stdout: Vec::new(),
        stderr: vec![b'a', 0xff, b'b'],
    };
    match assembled_html(outcome) {
        Err(AssemblyError::ProcessFailed(message)) => assert_eq!(message, "a\u{fffd}b"),
        _ => panic!("the build failed"),
    }
}

#[test]
fn build_output_that_is_not_text_is_an_encoding_error() {
    let outcome = ProcessResult::Exited {
        success: true,
        stdout: vec![0x3c, 0xc3, 0x28],
        stderr: Vec::new(),
    };
    assert!(matches!(assembled_html(outcome), Err(AssemblyError::EncodingError)));
}

#[test]
fn build_that_cannot_start_is_a_process_failure() {
    let outcome = ProcessResult::NotStarted { reason: s("bun: not found") };
    match assembled_html(outcome) {
        Err(AssemblyError::ProcessFailed(message)) => assert_eq!(message, "bun: not found"),
        _ => panic!("the build never ran"),
    }
}

#[test]
fn empty_build_output_is_an_empty_page() {
    let outcome = ProcessResult::Exited { success: true, stdout: Vec::new(), stderr: Vec::new() };
    match assembled_html(outcome) {
        Ok(html) => assert_eq!(html, ""),
        Err(_) => panic!("the build succeeded"),
    }
}

#[test]
fn render_without_target_goes_to_scratch() {
    let plan = render_plan("/tmp/scratch", None);
    assert_eq!(plan.html_path, "/tmp/scratch/preview.html");
    assert_eq!(plan.targets.mobile, "/tmp/scratch/mobile_preview.png");
    assert_eq!(plan.targets.desktop, "/tmp/scratch/desktop_preview.png");
    assert_eq!(plan.command.program, "bun");
    assert_eq!(
        plan.command.args,
        vec![
            s("run"),
            s("scripts/screenshot.js"),
            s("/tmp/scratch/preview.html"),
            s("/tmp/scratch/mobile_preview.png"),
            s("/tmp/scratch/desktop_preview.png"),
        ]
    );
    assert_eq!(plan.cleanup.directory, "/tmp/scratch");
    assert_eq!(plan.cleanup.delay_secs, 120);
    assert_eq!(RENDER_CLEANUP_DELAY_SECS, 120);
}

#[test]
fn render_with_target_renders_in_place() {
    let target = Preview { mobile: s("/site/previews/mobile.png"), desktop: s("/site/previews/desktop.png") };
    let plan = render_plan("/tmp/scratch", Some(target));
    assert_eq!(plan.html_path, "/tmp/scratch/preview.html");
    assert_eq!(plan.targets.mobile, "/site/previews/mobile.png");
    assert_eq!(plan.targets.desktop, "/site/previews/desktop.png");
    assert_eq!(
        plan.command.args,
        vec![
            s("run"),
            s("scripts/screenshot.js"),
            s("/tmp/scratch/preview.html"),
            s("/site/previews/mobile.png"),
            s("/site/previews/desktop.png"),
        ]
    );
    assert_eq!(plan.cleanup.directory, "/tmp/scratch");
    assert_eq!(plan.cleanup.delay_secs, 120);
}

#[test]
fn render_outcome_follows_the_process() {
    let plan = render_plan("/tmp/scratch", None);
    let done = RenderEvent::Process(ProcessResult::Exited {
        success: true,
        stdout: Vec::new(),
        stderr: Vec::new(),
    });
    let outcome = render_outcome(&plan, &done);
    match outcome.result {
        Ok(pair) => {
            assert_eq!(pair.mobile, "/tmp/scratch/mobile_preview.png");
            assert_eq!(pair.desktop, "/tmp/scratch/desktop_preview.png");
        }
        Err(_) => panic!("the render succeeded"),
    }
    assert_eq!(outcome.cleanup.directory, "/tmp/scratch");
    assert_eq!(outcome.cleanup.delay_secs, 120);
}

#[test]
fn failed_render_still_cleans_up() {
    let plan = render_plan("/tmp/scratch", None);
    let events = vec![
        (RenderEvent::WriteFailed, RenderError::IoFailure),
        (
            RenderEvent::Process(ProcessResult::Exited {
                success: false,
                stdout: Vec::new(),
                stderr: b"boom".to_vec(),
            }),
            RenderError::ProcessFailed,
        ),
        (
            RenderEvent::Process(ProcessResult::NotStarted { reason: s("bun: not found") }),
            RenderError::ProcessFailed,
        ),
    ];
    for (event, expected) in events {
        let outcome = render_outcome(&plan, &event);
        assert_eq!(outcome.result.err(), Some(expected));
        assert_eq!(outcome.cleanup.directory, "/tmp/scratch");
        assert_eq!(outcome.cleanup.delay_secs, 120);
    }
}

#[test]
fn default_preview_is_empty() {
    let pair = Preview::default();
    assert_eq!(pair.mobile, "");
    assert_eq!(pair.desktop, "");
    let copy = Preview { mobile: s("m"), desktop: s("d") }.duplicate();
    assert_eq!(copy.mobile, "m");
    assert_eq!(copy.desktop, "d");
}

#[test]
fn deletion_is_ordered_as_asked() {
    let order = schedule_delete("/tmp/scratch", 120);
    assert_eq!(order.directory, "/tmp/scratch");
    assert_eq!(order.delay_secs, 120);
    let soon = schedule_delete("/tmp/other", 0);
    assert_eq!(soon.delay_secs, 0);
}

#[test]
fn missing_directory_counts_as_deleted() {
    assert_eq!(deletion_report(&DeletionResult::Removed), None);
    assert_eq!(deletion_report(&DeletionResult::AlreadyGone), None);
    assert_eq!(
        deletion_report(&DeletionResult::Failed(s("permission denied"))),
        Some(s("Error cleaning up temporary directory: permission denied"))
    );
}
