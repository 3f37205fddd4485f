use summarizer_api::auth::Login;
use summarizer_api::handler::{
    bearer_refusal, login_reply, plan_upload, plan_upload_with_extension, register_check, register_reply, summarize_check, summarize_reply,
    upload_missing, upload_read_error, upload_reply,
};
use summarizer_api::request::{FileSummary, LoginRequest, RegisterRequest, SummaryRequest};
use summarizer_api::response::{
    ApiResponse, Error, LoginResponse, RegisterResponse, ResponseBody, SummarizeResponse, UploadResponse,
};

fn error(message: &str, status: u16, http: u16) -> ApiResponse {
    ApiResponse { status: http, body: ResponseBody::Error(Error { message: message.to_string(), status }) }
}

fn register_req(email: &str) -> RegisterRequest {
    RegisterRequest { name: "Ana".to_string(), email: email.to_string(), password: "pw".to_string() }
}

fn summary_req(n: usize, lang: &str) -> SummaryRequest {
    let files = (0..n)
        .map(|i| FileSummary {
            file_id: format!("id{}", i),
            file_ext: "txt".to_string(),
            file_name_upload: format!("f{}.txt", i),
        })
        .collect();
    SummaryRequest { files, lang: lang.to_string(), input_text: None }
}

#[test]
fn login_success_and_failure() {
    let req = LoginRequest { email: "ana@example.com".to_string(), password: "pw".to_string() };
    let ok = login_reply(&req, Ok(Login { name: "Ana".to_string(), token: "t".to_string() }));
    assert_eq!(
        ok,
        ApiResponse {
            status: 200,
            body: ResponseBody::Login(LoginResponse {
                name: "Ana".to_string(),
                email: "ana@example.com".to_string(),
                token: "t".to_string(),
            }),
        }
    );
    let bad = login_reply(&req, Err("invalid email or password".to_string()));
    assert_eq!(bad, error("invalid email or password", 400, 400));
}

#[test]
fn register_rejects_address_without_at() {
    assert_eq!(register_check(&register_req("ana.example.com")), Some(error("invalid email format", 400, 400)));
    assert_eq!(register_check(&register_req("ana@example.com")), None);
}

#[test]
fn register_replies() {
    let req = register_req("ana@example.com");
    assert_eq!(
        register_reply(&req, Ok(())),
        ApiResponse {
            status: 201,
            body: ResponseBody::Register(RegisterResponse {
                name: "Ana".to_string(),
                email: "ana@example.com".to_string(),
                message: "user registered successfully".to_string(),
            }),
        }
    );
    assert_eq!(register_reply(&req, Err("email already exist".to_string())), error("email already exist", 400, 400));
    assert_eq!(
        register_reply(&req, Err("error inserting new user".to_string())),
        error("error inserting new user", 500, 500)
    );
}

#[test]
fn upload_accepts_supported_kinds() {
    for (name, ext) in [("Report.PDF", "pdf"), ("a.b.docx", "docx"), ("notes.txt", "txt")] {
        let plan = plan_upload(Some(name.to_string())).expect("accepted");
        assert_eq!(plan.file_ext, ext);
        assert_eq!(plan.file_name_upload, name);
        assert_eq!(plan.file_id.len(), 32);
        assert_eq!(plan.filepath, format!("./upload/{}.{}", plan.file_id, ext));
    }
}

#[test]
fn upload_rejects_other_kinds() {
    let refusal = error("unsupport file extention, only allow (pdf, docx, txt)", 400, 400);
    assert_eq!(plan_upload(Some("image.png".to_string())), Err(refusal.clone()));
    assert_eq!(plan_upload(Some("archive.pdf.zip".to_string())), Err(refusal.clone()));
    assert_eq!(plan_upload(None), Err(refusal));
}

#[test]
fn upload_name_without_dot_is_its_own_extension() {
    let plan = plan_upload(Some("PDF".to_string())).expect("accepted");
    assert_eq!(plan.file_ext, "pdf");
    assert_eq!(plan.file_name_upload, "PDF");
}

#[test]
fn upload_replies() {
    let plan = plan_upload(Some("x.txt".to_string())).unwrap();
    assert_eq!(
        upload_reply(&plan, Ok(())),
        ApiResponse {
            status: 200,
            body: ResponseBody::Upload(UploadResponse {
                file_id: plan.file_id.clone(),
                file_ext: "txt".to_string(),
                file_name_upload: "x.txt".to_string(),
            }),
        }
    );
    assert_eq!(upload_reply(&plan, Err("disk full".to_string())), error("disk full", 500, 500));
    assert_eq!(upload_read_error("stream closed"), error("Error reading file: stream closed", 500, 500));
    assert_eq!(upload_missing(), error("invalid file upload", 400, 400));
}

#[test]
fn summarize_checks() {
    assert_eq!(summarize_check(&summary_req(0, "en")), Some(error("no file to summarize", 400, 400)));
    assert_eq!(
        summarize_check(&summary_req(1, "fr")),
        Some(error("unsupported language, only allow language \"id\" and \"en\"", 400, 400))
    );
    assert_eq!(summarize_check(&summary_req(2, "id")), None);
    assert_eq!(summarize_check(&summary_req(1, "en")), None);
}

#[test]
fn summarize_replies() {
    assert_eq!(
        summarize_reply(Ok("short".to_string())),
        ApiResponse {
            status: 200,
            body: ResponseBody::Summarize(SummarizeResponse { summary: "short".to_string(), content: String::new() }),
        }
    );
    assert_eq!(summarize_reply(Err("upstream failed".to_string())), error("upstream failed", 500, 500));
}

#[test]
fn bearer_guard() {
    assert_eq!(bearer_refusal(true), None);
    assert_eq!(bearer_refusal(false), Some("Invalid or expired token".to_string()));
}

#[test]
fn upload_plan_from_read_extension() {
    let plan = plan_upload_with_extension("Report.PDF".to_string(), "pdf".to_string()).expect("accepted");
    assert_eq!(plan.file_ext, "pdf");
    assert_eq!(plan.file_name_upload, "Report.PDF");
    assert_eq!(plan.filepath, format!("./upload/{}.pdf", plan.file_id));
    assert_eq!(
        plan_upload_with_extension("Report.PDF".to_string(), "PDF".to_string()),
        Err(error("unsupport file extention, only allow (pdf, docx, txt)", 400, 400))
    );
}
