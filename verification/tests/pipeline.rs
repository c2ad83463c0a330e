use s3_storage::orchestrate::{
    content_type_for, schedule_deletion, FileOutcome, Orchestrator, UploadEvent,
};
use s3_storage::text::base_name;
use s3_storage::render::render_outcomes;
use s3_storage::submission::{classify_field, original_name_or_placeholder, FieldKind, Submission};
use s3_storage::validate::{renamed_name, Rejection};

#[test]
fn classify_known_and_unknown_fields() {
    assert_eq!(classify_field("file"), FieldKind::FileField);
    assert_eq!(classify_field("identifier"), FieldKind::IdentifierField);
    assert_eq!(classify_field("ttl_value"), FieldKind::TtlValueField);
    assert_eq!(classify_field("ttl_unit"), FieldKind::TtlUnitField);
    assert_eq!(classify_field("password"), FieldKind::PasswordField);
    assert_eq!(classify_field("csrf_token"), FieldKind::OtherField);
    assert_eq!(classify_field("File"), FieldKind::OtherField);
}

#[test]
fn submission_defaults() {
    let sub = Submission::new();
    assert_eq!(sub.files.len(), 0);
    assert_eq!(sub.identifier, "");
    assert_eq!(sub.ttl_value, 1);
    assert_eq!(sub.ttl_unit, "hours");
    assert_eq!(sub.secret, "");
}

#[test]
fn record_text_fills_slots() {
    let mut sub = Submission::new();
    sub.record_text(FieldKind::IdentifierField, "report".to_string());
    sub.record_text(FieldKind::TtlValueField, "5".to_string());
    sub.record_text(FieldKind::TtlUnitField, "minutes".to_string());
    sub.record_text(FieldKind::PasswordField, "hunter2".to_string());
    sub.record_text(FieldKind::OtherField, "ignored".to_string());
    assert_eq!(sub.identifier, "report");
    assert_eq!(sub.ttl_value, 5);
    assert_eq!(sub.ttl_unit, "minutes");
    assert_eq!(sub.secret, "hunter2");
}

#[test]
fn record_text_keeps_prior_ttl_on_malformed_number() {
    let mut sub = Submission::new();
    sub.record_text(FieldKind::TtlValueField, "8".to_string());
    sub.record_text(FieldKind::TtlValueField, "not-a-number".to_string());
    assert_eq!(sub.ttl_value, 8);
}

#[test]
fn placeholder_for_undeclared_filename() {
    assert_eq!(original_name_or_placeholder(None), "unnamed");
    assert_eq!(original_name_or_placeholder(Some("a.txt".to_string())), "a.txt");
}

fn staged_submission(names: &[&str], secret: &str) -> Submission {
    let mut sub = Submission::new();
    sub.record_text(FieldKind::PasswordField, secret.to_string());
    for n in names {
        sub.stage_file(n.to_string(), "/tmp".to_string());
    }
    sub
}

#[test]
fn wrong_secret_is_unauthorized() {
    let sub = staged_submission(&["scan.pdf"], "wrong");
    let err = sub.validate("expected").unwrap_err();
    assert_eq!(err, Rejection::Unauthorized);
    assert_eq!(err.message(), "Invalid password");
}

#[test]
fn no_file_is_rejected_after_secret_passes() {
    let sub = staged_submission(&[], "pw");
    let err = sub.validate("pw").unwrap_err();
    assert_eq!(err, Rejection::NoFileUploaded);
    assert_eq!(err.message(), "No file uploaded");
}

#[test]
fn identifier_rename_keeps_extension() {
    let mut sub = staged_submission(&["scan.pdf"], "pw");
    sub.record_text(FieldKind::IdentifierField, "report".to_string());
    let v = sub.validate("pw").unwrap();
    assert_eq!(v.files[0].staged_name, "report.pdf");
    assert_eq!(v.files[0].original_name, "scan.pdf");
    let step = v.rename.as_ref().unwrap();
    assert_eq!(step.from_path, "/tmp/scan.pdf");
    assert_eq!(step.to_path, "/tmp/report.pdf");
}

#[test]
fn identifier_rename_without_extension() {
    let mut sub = staged_submission(&["scanfile"], "pw");
    sub.record_text(FieldKind::IdentifierField, "report".to_string());
    let v = sub.validate("pw").unwrap();
    assert_eq!(v.files[0].staged_name, "report");
    let step = v.rename.as_ref().unwrap();
    assert_eq!(step.to_path, "/tmp/report");
}

#[test]
fn leading_dot_is_not_an_extension() {
    let mut sub = staged_submission(&[".bashrc"], "pw");
    sub.record_text(FieldKind::IdentifierField, "report".to_string());
    let v = sub.validate("pw").unwrap();
    assert_eq!(v.files[0].staged_name, "report");
}

#[test]
fn renamed_name_picks_last_extension() {
    assert_eq!(renamed_name("report", "a.tar.gz"), "report.gz");
    assert_eq!(renamed_name("report", "noext"), "report");
    assert_eq!(renamed_name("report", "trailing."), "report.");
}

#[test]
fn no_rename_with_empty_identifier() {
    let sub = staged_submission(&["scan.pdf"], "pw");
    let v = sub.validate("pw").unwrap();
    assert!(v.rename.is_none());
    assert_eq!(v.files[0].staged_name, "scan.pdf");
}

#[test]
fn no_rename_with_several_files() {
    let mut sub = staged_submission(&["a.txt", "b.txt"], "pw");
    sub.record_text(FieldKind::IdentifierField, "report".to_string());
    let v = sub.validate("pw").unwrap();
    assert!(v.rename.is_none());
    assert_eq!(v.files[0].staged_name, "a.txt");
    assert_eq!(v.files[1].staged_name, "b.txt");
}

#[test]
fn ttl_is_resolved_during_validation() {
    let mut sub = staged_submission(&["a.txt"], "pw");
    sub.record_text(FieldKind::TtlValueField, "2".to_string());
    sub.record_text(FieldKind::TtlUnitField, "minutes".to_string());
    let v = sub.validate("pw").unwrap();
    assert_eq!(v.ttl_seconds, 120);
}

#[test]
fn upload_request_carries_key_path_and_content_type() {
    let mut sub = staged_submission(&["scan.pdf"], "pw");
    sub.record_text(FieldKind::IdentifierField, "report".to_string());
    let v = sub.validate("pw").unwrap();
    let orch = Orchestrator::new(v);
    let req = orch.next_request().unwrap();
    assert_eq!(req.key, "report.pdf");
    assert_eq!(req.temp_path, "/tmp/report.pdf");
    assert_eq!(req.content_type, "application/pdf");
}

#[test]
fn content_type_falls_back_to_octet_stream() {
    let sub = staged_submission(&["blob"], "pw");
    let v = sub.validate("pw").unwrap();
    let orch = Orchestrator::new(v);
    let req = orch.next_request().unwrap();
    assert_eq!(req.content_type, "application/octet-stream");
}

#[test]
fn every_file_is_attempted_and_cleaned_despite_failures() {
    let mut sub = staged_submission(&["a.txt", "b.txt", "c.txt"], "pw");
    sub.record_text(FieldKind::TtlValueField, "2".to_string());
    sub.record_text(FieldKind::TtlUnitField, "minutes".to_string());
    let v = sub.validate("pw").unwrap();
    let mut orch = Orchestrator::new(v);

    let mut cleanup_actions = Vec::new();
    let mut step: u64 = 0;
    while let Some(req) = orch.next_request() {
        let ev = if step == 1 {
            UploadEvent::Failed { detail: "connection reset".to_string() }
        } else {
            UploadEvent::Succeeded { download_url: format!("https://store/{}", req.key) }
        };
        let actions = orch.record_outcome(ev);
        cleanup_actions.push(actions.cleanup_path);
        step += 1;
    }
    assert!(orch.is_complete());

    assert_eq!(orch.outcomes.len(), 3);
    let mut published = 0;
    let mut failed = 0;
    for o in &orch.outcomes {
        match o {
            FileOutcome::Published { .. } => published += 1,
            FileOutcome::UploadFailed { .. } => failed += 1,
        }
    }
    assert_eq!(published, 2);
    assert_eq!(failed, 1);

    assert_eq!(cleanup_actions, vec!["/tmp/a.txt", "/tmp/b.txt", "/tmp/c.txt"]);
    assert_eq!(orch.cleanups, vec!["/tmp/a.txt", "/tmp/b.txt", "/tmp/c.txt"]);

    assert_eq!(orch.scheduled.len(), 2);
    assert_eq!(orch.scheduled[0].key, "a.txt");
    assert_eq!(orch.scheduled[1].key, "c.txt");
    assert!(orch.scheduled.iter().all(|t| t.delay_seconds == 120));
}

#[test]
fn zero_ttl_schedules_no_deletion() {
    let mut sub = staged_submission(&["a.txt"], "pw");
    sub.record_text(FieldKind::TtlValueField, "0".to_string());
    let v = sub.validate("pw").unwrap();
    assert_eq!(v.ttl_seconds, 0);
    let mut orch = Orchestrator::new(v);
    let actions = orch.record_outcome(UploadEvent::Succeeded {
        download_url: "https://store/a.txt".to_string(),
    });
    assert!(actions.deletion.is_none());
    assert_eq!(orch.scheduled.len(), 0);
    assert_eq!(orch.cleanups, vec!["/tmp/a.txt"]);
}

#[test]
fn deletion_task_delay_equals_full_ttl() {
    let mut sub = staged_submission(&["a.txt"], "pw");
    sub.record_text(FieldKind::TtlValueField, "3".to_string());
    sub.record_text(FieldKind::TtlUnitField, "hours".to_string());
    let v = sub.validate("pw").unwrap();
    let mut orch = Orchestrator::new(v);
    let actions = orch.record_outcome(UploadEvent::Succeeded {
        download_url: "https://store/a.txt".to_string(),
    });
    let task = actions.deletion.unwrap();
    assert_eq!(task.key, "a.txt");
    assert_eq!(task.delay_seconds, 3 * 3600);
}

#[test]
fn response_renders_success_and_failure_paragraphs() {
    let sub = staged_submission(&["a.txt", "b.txt"], "pw");
    let v = sub.validate("pw").unwrap();
    let ttl = v.ttl_seconds;
    assert_eq!(ttl, 3600);
    let mut orch = Orchestrator::new(v);
    orch.record_outcome(UploadEvent::Succeeded { download_url: "https://u/a.txt".to_string() });
    orch.record_outcome(UploadEvent::Failed { detail: "timed out".to_string() });
    let body = render_outcomes(&orch.outcomes);
    assert_eq!(
        body,
        "<p>File: a.txt uploaded successfully! <br>Download: <a href='https://u/a.txt'>https://u/a.txt</a> <br>Expires in: 3600 seconds</p>\
         <hr><p>Upload failed for b.txt: timed out</p>"
    );
}

#[test]
fn base_name_takes_last_path_component() {
    assert_eq!(base_name("/tmp/scan.pdf"), "scan.pdf");
    assert_eq!(base_name("scan.pdf"), "scan.pdf");
    assert_eq!(base_name("/a/b/c"), "c");
    assert_eq!(base_name(""), "");
}

#[test]
fn content_type_guessed_from_extension() {
    assert_eq!(content_type_for("/tmp/photo.png"), "image/png");
    assert_eq!(content_type_for("notes.txt"), "text/plain");
    assert_eq!(content_type_for("mystery"), "application/octet-stream");
}

#[test]
fn deletion_scheduled_only_for_positive_ttl() {
    let task = schedule_deletion("a.txt".to_string(), 60).unwrap();
    assert_eq!(task.key, "a.txt");
    assert_eq!(task.delay_seconds, 60);
    assert!(schedule_deletion("a.txt".to_string(), 0).is_none());
}

#[test]
fn render_empty_outcomes_is_empty() {
    let outs: Vec<FileOutcome> = Vec::new();
    assert_eq!(render_outcomes(&outs), "");
}
