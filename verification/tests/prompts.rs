use summarizer_api::file::{DocumentKind, ExtractJob, FileService, SummaryProcess};
use summarizer_api::request::FileSummary;
use summarizer_api::storage::MinioSettings;

fn proc(name: &str, text: &str) -> SummaryProcess {
    SummaryProcess { file_name_upload: name.to_string(), text: text.to_string() }
}

#[test]
fn indonesian_prompt_with_input() {
    let s = FileService::new();
    let r = s.build_chat_request_id(vec![proc("a.txt", "satu"), proc("b.pdf", "dua")], Some("jelaskan".to_string()));
    assert_eq!(
        r,
        "Saya telah mengekstrak teks dari file berikut:\n\n\
         Nama file: a.txt\nIsi: satu\n\n\
         Nama file: b.pdf\nIsi: dua\n\n\
         tolong interaksi atau jawab dengan masukan berikut:\n\n\
         dapatkah kamu merangkum isi dari file tersebut dan jelaskan"
    );
}

#[test]
fn indonesian_prompt_without_input() {
    let s = FileService::new();
    let r = s.build_chat_request_id(vec![], None);
    assert_eq!(
        r,
        "Saya telah mengekstrak teks dari file berikut:\n\n\
         tolong interaksi atau jawab dengan masukan berikut:\n\n\
         dapatkah kamu merangkum isi dari file tersebut"
    );
}

#[test]
fn english_prompt_single_file() {
    let s = FileService::new();
    let r = s.build_chat_request_en(vec![proc("a.txt", "one")], None);
    assert_eq!(
        r,
        "I have extracted the text from the following file:\n\n\
         File name: a.txt\nContent: one\n\n\
         please interact or answer with this following input:\n\n\
         can you summarize the content of the file"
    );
}

#[test]
fn english_prompt_many_files() {
    let s = FileService::new();
    let r = s.build_chat_request_en(vec![proc("a", "1"), proc("b", "2")], Some("list risks".to_string()));
    assert_eq!(
        r,
        "I have extracted the text from the following files:\n\n\
         File name: a\nContent: 1\n\n\
         File name: b\nContent: 2\n\n\
         please interact or answer with this following input:\n\n\
         can you summarize the content of the file and list risks"
    );
    let none = s.build_chat_request_en(vec![], None);
    assert!(none.starts_with("I have extracted the text from the following files:\n\n"));
}

#[test]
fn prompt_by_language() {
    let s = FileService::new();
    let files = vec![proc("a", "1")];
    assert_eq!(s.chat_request("id", files.clone(), None), Ok(s.build_chat_request_id(files.clone(), None)));
    assert_eq!(s.chat_request("en", files.clone(), None), Ok(s.build_chat_request_en(files.clone(), None)));
    assert_eq!(
        s.chat_request("de", files, None),
        Err("unsupported language, only allow language \"id\" and \"en\"".to_string())
    );
}

#[test]
fn extraction_targets() {
    let s = FileService::new();
    assert_eq!(
        s.extract_text("abc", "pdf"),
        Ok(ExtractJob { path: "./upload/abc.pdf".to_string(), kind: DocumentKind::Pdf })
    );
    assert_eq!(
        s.extract_text("abc", "docx"),
        Ok(ExtractJob { path: "./upload/abc.docx".to_string(), kind: DocumentKind::Docx })
    );
    assert_eq!(
        s.extract_text("abc", "txt"),
        Ok(ExtractJob { path: "./upload/abc.txt".to_string(), kind: DocumentKind::Txt })
    );
    assert_eq!(s.extract_text("abc", "PDF"), Err("Unsupported file type".to_string()));
    assert_eq!(s.extract_text("abc", "png"), Err("Unsupported file type".to_string()));
}

#[test]
fn extraction_errors() {
    assert_eq!(FileService::extraction_error(DocumentKind::Pdf, false, "bad"), "Error reading pdf file: bad");
    assert_eq!(FileService::extraction_error(DocumentKind::Docx, false, "gone"), "Error reading docx file: gone");
    assert_eq!(FileService::extraction_error(DocumentKind::Docx, true, "xml"), "error parse file docx: xml");
    assert_eq!(FileService::extraction_error(DocumentKind::Txt, false, "io"), "Error reading txt file: io");
}

fn files(names: &[&str]) -> Vec<FileSummary> {
    names
        .iter()
        .map(|n| FileSummary { file_id: "i".to_string(), file_ext: "txt".to_string(), file_name_upload: n.to_string() })
        .collect()
}

#[test]
fn summary_prompt_from_extractions() {
    let s = FileService::new();
    let fs = files(&["a.txt", "b.txt"]);
    let ok = vec![Ok("one".to_string()), Ok("two".to_string())];
    assert_eq!(
        s.summary_prompt(&fs, &ok, "en", None),
        Ok(s.build_chat_request_en(vec![proc("a.txt", "one"), proc("b.txt", "two")], None))
    );
    assert_eq!(
        s.summary_prompt(&fs, &ok, "id", Some("x".to_string())),
        Ok(s.build_chat_request_id(vec![proc("a.txt", "one"), proc("b.txt", "two")], Some("x".to_string())))
    );
}

#[test]
fn summary_prompt_first_failure_wins() {
    let s = FileService::new();
    let fs = files(&["a.txt", "b.pdf", "c.docx"]);
    let ex = vec![Ok("one".to_string()), Err("Error reading pdf file: bad".to_string())];
    assert_eq!(s.summary_prompt(&fs, &ex, "fr", None), Err("Error reading pdf file: bad".to_string()));
    let two = vec![Err("first".to_string()), Err("second".to_string())];
    assert_eq!(s.summary_prompt(&fs, &two, "en", None), Err("first".to_string()));
}

#[test]
fn summary_prompt_language_after_extraction() {
    let s = FileService::new();
    let fs = files(&["a.txt"]);
    assert_eq!(
        s.summary_prompt(&fs, &vec![Ok("one".to_string())], "de", None),
        Err("unsupported language, only allow language \"id\" and \"en\"".to_string())
    );
}

#[test]
fn minio_defaults() {
    let d = MinioSettings::from_env_values(None, None, None, None);
    assert_eq!(d.endpoint, "localhost:9022");
    assert_eq!(d.access_key, "minio-access-key-test");
    assert_eq!(d.secret_key, "secret-key-test");
    assert_eq!(d.bucket_name, "test");
    let c = MinioSettings::from_env_values(Some("s3:9000".to_string()), None, Some("k".to_string()), Some("docs".to_string()));
    assert_eq!(c.endpoint, "s3:9000");
    assert_eq!(c.access_key, "minio-access-key-test");
    assert_eq!(c.secret_key, "k");
    assert_eq!(c.bucket_name, "docs");
}

#[test]
fn upload_read_failure_message() {
    assert_eq!(FileService::upload_read_failure("reset"), "error reading file : reset");
}
