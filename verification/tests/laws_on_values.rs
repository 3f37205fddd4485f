use summarizer_api::auth::register_failure_message;
use summarizer_api::file::FileService;
use summarizer_api::handler::{plan_upload, register_reply, summarize_check};
use summarizer_api::request::{FileSummary, RegisterRequest, SummaryRequest};

#[test]
fn uploaded_file_is_read_back_from_where_it_was_written() {
    let plan = plan_upload(Some("Thesis.DOCX".to_string())).unwrap();
    let job = FileService::new().extract_text(&plan.file_id, &plan.file_ext).unwrap();
    assert_eq!(job.path, plan.filepath);
}

#[test]
fn taken_email_is_answered_bad_request() {
    let req = RegisterRequest { name: "N".to_string(), email: "n@x".to_string(), password: "p".to_string() };
    let dup = register_failure_message("ERROR: duplicate key value violates unique constraint \"users_email_key\"");
    assert_eq!(register_reply(&req, Err(dup)).status, 400);
    let other = register_failure_message("relation \"users\" does not exist");
    assert_eq!(register_reply(&req, Err(other)).status, 500);
}

#[test]
fn checked_request_gets_a_prompt() {
    for lang in ["id", "en"] {
        let req = SummaryRequest {
            files: vec![FileSummary { file_id: "a".to_string(), file_ext: "txt".to_string(), file_name_upload: "a.txt".to_string() }],
            lang: lang.to_string(),
            input_text: None,
        };
        assert!(summarize_check(&req).is_none());
        assert!(FileService::new().chat_request(&req.lang, vec![], None).is_ok());
    }
}

#[test]
fn prompt_presents_files_in_order() {
    let s = FileService::new();
    let files = vec![
        summarizer_api::file::SummaryProcess { file_name_upload: "first".to_string(), text: "A".to_string() },
        summarizer_api::file::SummaryProcess { file_name_upload: "second".to_string(), text: "B".to_string() },
    ];
    let p = s.build_chat_request_en(files, None);
    let a = p.find("File name: first\nContent: A\n\n").unwrap();
    let b = p.find("File name: second\nContent: B\n\n").unwrap();
    assert!(a < b);
}
