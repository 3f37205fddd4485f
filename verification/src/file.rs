//! The document side of the service: where uploads are stored, which file
//! kinds can be read back, and the prompt that asks for a summary.

use vstd::prelude::*;
use crate::request::FileSummary;

verus! {

/// The text extracted from one uploaded file, with the name it was uploaded under.
#[derive(Clone, Debug, PartialEq, Eq)]
pub struct SummaryProcess {
    pub file_name_upload: String,
    pub text: String,
}

/// The two languages a prompt can be written in.
pub open spec fn is_supported_language(lang: Seq<char>) -> bool {
    lang == "id"@ || lang == "en"@
}

/// The part of the Indonesian prompt that presents one file.
pub open spec fn section_id(p: SummaryProcess) -> Seq<char> {
    "Nama file: "@ + p.file_name_upload@ + "\n"@ + "Isi: "@ + p.text@ + "\n\n"@
}

/// The part of the English prompt that presents one file.
pub open spec fn section_en(p: SummaryProcess) -> Seq<char> {
    "File name: "@ + p.file_name_upload@ + "\n"@ + "Content: "@ + p.text@ + "\n\n"@
}

/// The part of the prompt that presents one file, in English or Indonesian.
pub open spec fn section(p: SummaryProcess, english: bool) -> Seq<char> {
    if english {
        section_en(p)
    } else {
        section_id(p)
    }
}

/// The sections of all files, in the order given.
pub open spec fn sections(files: Seq<SummaryProcess>, english: bool) -> Seq<char>
    decreases files.len(),
{
    if files.len() == 0 {
        Seq::empty()
    } else {
        sections(files.drop_last(), english) + section(files.last(), english)
    }
}

/// The closing request of the Indonesian prompt.
pub open spec fn closing_id(input_text: Option<String>) -> Seq<char> {
    "tolong interaksi atau jawab dengan masukan berikut:\n\n"@ + match input_text {
        Some(t) => "dapatkah kamu merangkum isi dari file tersebut dan "@ + t@,
        None => "dapatkah kamu merangkum isi dari file tersebut"@,
    }
}

/// The closing request of the English prompt.
pub open spec fn closing_en(input_text: Option<String>) -> Seq<char> {
    "please interact or answer with this following input:\n\n"@ + match input_text {
        Some(t) => "can you summarize the content of the file and "@ + t@,
        None => "can you summarize the content of the file"@,
    }
}

/// The opening line of the English prompt: singular for exactly one file.
pub open spec fn opening_en(count: nat) -> Seq<char> {
    if count == 1 {
        "I have extracted the text from the following file:\n\n"@
    } else {
        "I have extracted the text from the following files:\n\n"@
    }
}

/// The whole Indonesian prompt.
pub open spec fn chat_request_id(files: Seq<SummaryProcess>, input_text: Option<String>) -> Seq<char> {
    "Saya telah mengekstrak teks dari file berikut:\n\n"@ + sections(files, false)
        + closing_id(input_text)
}

/// The whole English prompt.
pub open spec fn chat_request_en(files: Seq<SummaryProcess>, input_text: Option<String>) -> Seq<char> {
    opening_en(files.len()) + sections(files, true) + closing_en(input_text)
}

/// The prompt of a summary in `lang`: Indonesian for `id`, English for `en`,
/// and the unsupported-language error for any other.
pub open spec fn prompt_for(lang: Seq<char>, files: Seq<SummaryProcess>, input_text: Option<String>) -> Result<
    Seq<char>,
    Seq<char>,
> {
    if lang == "id"@ {
        Ok(chat_request_id(files, input_text))
    } else if lang == "en"@ {
        Ok(chat_request_en(files, input_text))
    } else {
        Err(unsupported_language_message())
    }
}

/// The entry of one file in a prompt: the name it was uploaded under and
/// what reading it gave.
pub open spec fn entry_of(file: FileSummary, extracted: Result<String, String>) -> SummaryProcess {
    SummaryProcess {
        file_name_upload: file.file_name_upload,
        text: match extracted {
            Ok(t) => t,
            Err(e) => e,
        },
    }
}

/// The entries of the files that were read, in order.
pub open spec fn entries(files: Seq<FileSummary>, extracted: Seq<Result<String, String>>) -> Seq<SummaryProcess> {
    let n = if files.len() <= extracted.len() { files.len() } else { extracted.len() };
    Seq::new(n, |i: int| entry_of(files[i], extracted[i]))
}

/// The message of the first failed extraction, if any failed.
pub open spec fn first_error(extracted: Seq<Result<String, String>>) -> Option<Seq<char>>
    decreases extracted.len(),
{
    if extracted.len() == 0 {
        None
    } else {
        match extracted[0] {
            Err(e) => Some(e@),
            Ok(_) => first_error(extracted.drop_first()),
        }
    }
}

/// What `summarize` ends with, before the model is asked: the first failed
/// extraction's message, or the prompt for the files that were read.
pub open spec fn summary_result(
    files: Seq<FileSummary>,
    extracted: Seq<Result<String, String>>,
    lang: Seq<char>,
    input_text: Option<String>,
) -> Result<Seq<char>, Seq<char>> {
    match first_error(extracted) {
        Some(e) => Err(e),
        None => prompt_for(lang, entries(files, extracted), input_text),
    }
}

/// The file kinds whose text can be extracted.
#[derive(Clone, Copy, Debug, PartialEq, Eq)]
pub enum DocumentKind {
    Pdf,
    Docx,
    Txt,
}

/// The kind that an extension names, if it names one.
pub open spec fn kind_of_extension(ext: Seq<char>) -> Option<DocumentKind> {
    if ext == "pdf"@ {
        Some(DocumentKind::Pdf)
    } else if ext == "docx"@ {
        Some(DocumentKind::Docx)
    } else if ext == "txt"@ {
        Some(DocumentKind::Txt)
    } else {
        None
    }
}

/// Where an upload with this id and extension is stored, below `dir`.
pub open spec fn stored_path(dir: Seq<char>, file_id: Seq<char>, ext: Seq<char>) -> Seq<char> {
    "./"@ + dir + "/"@ + file_id + "."@ + ext
}

/// The directory that uploads go to and are read back from.
pub open spec fn upload_dir() -> Seq<char> {
    "upload"@
}

/// A file whose text is to be read: where it is and how to read it.
#[derive(Clone, Debug, PartialEq, Eq)]
pub struct ExtractJob {
    pub path: String,
    pub kind: DocumentKind,
}

/// The message of a failed extraction, by kind: the reader's own message
/// after a prefix that names the step that failed.
pub open spec fn extraction_message(kind: DocumentKind, parse_step: bool, detail: Seq<char>) -> Seq<char> {
    match kind {
        DocumentKind::Pdf => "Error reading pdf file: "@ + detail,
        DocumentKind::Docx => if parse_step {
            "error parse file docx: "@ + detail
        } else {
            "Error reading docx file: "@ + detail
        },
        DocumentKind::Txt => "Error reading txt file: "@ + detail,
    }
}

/// What reading the bytes of a DOCX with `docx_rust` gives: the text of its
/// body, or the message of the error that stopped it, with `true` when the
/// archive was read and parsing its XML failed.
pub uninterp spec fn docx_text_of(bytes: Seq<u8>) -> Result<Seq<char>, (bool, Seq<char>)>;

/// Calls `docx_rust::DocxFile::from_reader` on the bytes, then `parse`, then
/// the body's `text`; the outcome is named by `docx_text_of`, with the failing
/// step marked `true` for `parse`.
#[verifier::external_body]
fn docx_extract_text(bytes: &[u8]) -> (r: Result<String, (bool, String)>)
    ensures
        match r {
            Ok(t) => docx_text_of(bytes@) == Ok::<Seq<char>, (bool, Seq<char>)>(t@),
            Err((step, e)) => docx_text_of(bytes@) == Err::<Seq<char>, (bool, Seq<char>)>(
                (step, e@),
            ),
        },
{
    let file = match docx_rust::DocxFile::from_reader(std::io::Cursor::new(bytes)) {
        Ok(file) => file,
        Err(e) => return Err((false, e.to_string())),
    };
    match file.parse() {
        Ok(docx) => Ok(docx.document.body.text()),
        Err(e) => Err((true, e.to_string())),
    }
}

/// The text of a PDF from what the PDF reader reported: its text, or its
/// error's message after the PDF prefix. The reader itself runs in the
/// server, since it can panic on malformed documents that no precondition
/// can single out.
pub fn pdf_text_outcome(read: Result<String, String>) -> (r: Result<String, String>)
    ensures
        match read {
            Ok(t) => r matches Ok(s) && s@ == t@,
            Err(d) => r matches Err(m) && m@ == extraction_message(DocumentKind::Pdf, false, d@),
        },
{
    match read {
        Ok(text) => Ok(text),
        Err(e) => Err(FileService::extraction_error(DocumentKind::Pdf, false, e.as_str())),
    }
}

/// The body text of a DOCX, from its bytes; a failure is reported with the
/// prefix of the step that failed before the reader's message.
pub fn extract_docx_text(bytes: &[u8]) -> (r: Result<String, String>)
    ensures
        match docx_text_of(bytes@) {
            Ok(t) => r matches Ok(s) && s@ == t,
            Err((parse_step, d)) => r matches Err(m) && m@ == extraction_message(
                DocumentKind::Docx,
                parse_step,
                d,
            ),
        },
{
    match docx_extract_text(bytes) {
        Ok(text) => Ok(text),
        Err((parse_step, e)) => Err(FileService::extraction_error(DocumentKind::Docx, parse_step, e.as_str())),
    }
}

/// The unsupported-language message of `summarize`.
pub open spec fn unsupported_language_message() -> Seq<char> {
    "unsupported language, only allow language \"id\" and \"en\""@
}

/// Builds `./{dir}/{file_id}.{ext}`.
pub fn stored_file_path(dir: &str, file_id: &str, ext: &str) -> (r: String)
    ensures
        r@ == stored_path(dir@, file_id@, ext@),
{
    let mut r = String::from_str("./");
    r.append(dir);
    r.append("/");
    r.append(file_id);
    r.append(".");
    r.append(ext);
    r
}

/// Reads the kind named by an (already lower-cased) extension.
pub fn document_kind(ext: &str) -> (r: Option<DocumentKind>)
    ensures
        r == kind_of_extension(ext@),
{
    if crate::text::str_equals(ext, "pdf") {
        Some(DocumentKind::Pdf)
    } else if crate::text::str_equals(ext, "docx") {
        Some(DocumentKind::Docx)
    } else if crate::text::str_equals(ext, "txt") {
        Some(DocumentKind::Txt)
    } else {
        None
    }
}

/// Reads and summarises uploaded documents.
pub struct FileService {}

impl FileService {
    pub fn new() -> (r: Self) {
        FileService {  }
    }

    /// Where the text of an uploaded file is read from, and how: the file
    /// `./upload/{file_id}.{file_ext}`, by the reader of its kind; or the
    /// error `Unsupported file type`.
    pub fn extract_text(&self, file_id: &str, file_ext: &str) -> (r: Result<ExtractJob, String>)
        ensures
            match kind_of_extension(file_ext@) {
                Some(kind) => r matches Ok(job) && job.kind == kind && job.path@ == stored_path(
                    upload_dir(),
                    file_id@,
                    file_ext@,
                ),
                None => r matches Err(e) && e@ == "Unsupported file type"@,
            },
    {
        let path = stored_file_path("upload", file_id, file_ext);
        match document_kind(file_ext) {
            Some(kind) => Ok(ExtractJob { path, kind }),
            None => Err(String::from_str("Unsupported file type")),
        }
    }

    /// The message of a failed extraction of a file of `kind`, given the
    /// reader's own message; `parse_step` tells a failed docx parse from a
    /// failed docx read.
    pub fn extraction_error(kind: DocumentKind, parse_step: bool, detail: &str) -> (r: String)
        ensures
            r@ == extraction_message(kind, parse_step, detail@),
    {
        let mut r = match kind {
            DocumentKind::Pdf => String::from_str("Error reading pdf file: "),
            DocumentKind::Docx => if parse_step {
                String::from_str("error parse file docx: ")
            } else {
                String::from_str("Error reading docx file: ")
            },
            DocumentKind::Txt => String::from_str("Error reading txt file: "),
        };
        r.append(detail);
        r
    }

    /// Appends the sections of `files` to `text`.
    fn append_sections(text: &mut String, files: &Vec<SummaryProcess>, english: bool)
        ensures
            final(text)@ == old(text)@ + sections(files@, english),
    {
        let ghost start = text@;
        let mut i: usize = 0;
        assert(files@.take(0) =~= Seq::<SummaryProcess>::empty());
        while i < files.len()
            invariant
                i <= files.len(),
                text@ == start + sections(files@.take(i as int), english),
            decreases files.len() - i,
        {
            let f = &files[i];
            if english {
                text.append("File name: ");
            } else {
                text.append("Nama file: ");
            }
            text.append(f.file_name_upload.as_str());
            text.append("\n");
            if english {
                text.append("Content: ");
            } else {
                text.append("Isi: ");
            }
            text.append(f.text.as_str());
            text.append("\n\n");
            assert(files@.take(i + 1).drop_last() =~= files@.take(i as int));
            assert(files@.take(i + 1).last() == files@[i as int]);
            assert(text@ =~= start + sections(files@.take(i + 1), english));
            i = i + 1;
        }
        assert(files@.take(files.len() as int) =~= files@);
    }

    /// Appends the closing request, with the caller's own input if any.
    fn append_closing(text: &mut String, input_text: Option<String>, english: bool)
        ensures
            final(text)@ == old(text)@ + if english {
                closing_en(input_text)
            } else {
                closing_id(input_text)
            },
    {
        if english {
            text.append("please interact or answer with this following input:\n\n");
        } else {
            text.append("tolong interaksi atau jawab dengan masukan berikut:\n\n");
        }
        match input_text {
            Some(t) => {
                if english {
                    text.append("can you summarize the content of the file and ");
                } else {
                    text.append("dapatkah kamu merangkum isi dari file tersebut dan ");
                }
                text.append(t.as_str());
            },
            None => {
                if english {
                    text.append("can you summarize the content of the file");
                } else {
                    text.append("dapatkah kamu merangkum isi dari file tersebut");
                }
            },
        }
    }

    /// The Indonesian prompt: an opening line, one section per file in
    /// order, and the closing request.
    pub fn build_chat_request_id(
        &self,
        file_process: Vec<SummaryProcess>,
        input_text: Option<String>,
    ) -> (r: String)
        ensures
            r@ == chat_request_id(file_process@, input_text),
    {
        let mut text = String::from_str("Saya telah mengekstrak teks dari file berikut:\n\n");
        Self::append_sections(&mut text, &file_process, false);
        Self::append_closing(&mut text, input_text, false);
        text
    }

    /// The English prompt: an opening line (singular for exactly one file),
    /// one section per file in order, and the closing request.
    pub fn build_chat_request_en(
        &self,
        file_process: Vec<SummaryProcess>,
        input_text: Option<String>,
    ) -> (r: String)
        ensures
            r@ == chat_request_en(file_process@, input_text),
    {
        let mut text = if file_process.len() == 1 {
            String::from_str("I have extracted the text from the following file:\n\n")
        } else {
            String::from_str("I have extracted the text from the following files:\n\n")
        };
        Self::append_sections(&mut text, &file_process, true);
        Self::append_closing(&mut text, input_text, true);
        text
    }

    /// The prompt of `summarize`, in the language asked for; an error for
    /// any language but `id` and `en`.
    pub fn chat_request(
        &self,
        lang: &str,
        file_process: Vec<SummaryProcess>,
        input_text: Option<String>,
    ) -> (r: Result<String, String>)
        ensures
            match prompt_for(lang@, file_process@, input_text) {
                Ok(p) => r matches Ok(t) && t@ == p,
                Err(e) => r matches Err(m) && m@ == e,
            },
    {
        proof {
            reveal_strlit("id");
            reveal_strlit("en");
            assert("id"@[0] != "en"@[0]);
        }
        if crate::text::str_equals(lang, "id") {
            Ok(self.build_chat_request_id(file_process, input_text))
        } else if crate::text::str_equals(lang, "en") {
            Ok(self.build_chat_request_en(file_process, input_text))
        } else {
            Err(String::from_str("unsupported language, only allow language \"id\" and \"en\""))
        }
    }

    /// The message of an upload whose body could not be read to the end.
    pub fn upload_read_failure(detail: &str) -> (r: String)
        ensures
            r@ == "error reading file : "@ + detail@,
    {
        let mut r = String::from_str("error reading file : ");
        r.append(detail);
        r
    }

    /// `summarize` after the extraction: the first failed extraction ends it
    /// with that failure's message, before the language is looked at;
    /// otherwise the prompt is built from each file's name and text, in the
    /// language asked for. `extracted[i]` is what reading `files[i]` gave; the
    /// reading stops at the first failure, so `extracted` may be shorter.
    pub fn summary_prompt(
        &self,
        files: &Vec<FileSummary>,
        extracted: &Vec<Result<String, String>>,
        lang: &str,
        input_text: Option<String>,
    ) -> (r: Result<String, String>)
        ensures
            match summary_result(files@, extracted@, lang@, input_text) {
                Ok(p) => r matches Ok(t) && t@ == p,
                Err(e) => r matches Err(m) && m@ == e,
            },
    {
        let mut file_process: Vec<SummaryProcess> = Vec::new();
        let mut i: usize = 0;
        assert(extracted@.skip(0) =~= extracted@);
        while i < extracted.len()
            invariant
                i <= extracted.len(),
                file_process@ =~= entries(files@, extracted@.take(i as int)),
                first_error(extracted@) == first_error(extracted@.skip(i as int)),
            decreases extracted.len() - i,
        {
            assert(extracted@.skip(i as int)[0] == extracted@[i as int]);
            match &extracted[i] {
                Err(e) => {
                    return Err(e.clone());
                },
                Ok(t) => {
                    assert(extracted@.skip(i as int).drop_first() =~= extracted@.skip(i + 1));
                    if i < files.len() {
                        file_process.push(
                            SummaryProcess {
                                file_name_upload: files[i].file_name_upload.clone(),
                                text: t.clone(),
                            },
                        );
                    }
                },
            }
            i = i + 1;
            assert(file_process@ =~= entries(files@, extracted@.take(i as int)));
        }
        assert(extracted@.take(extracted.len() as int) =~= extracted@);
        assert(first_error(extracted@.skip(i as int)) == None::<Seq<char>>) by {
            assert(extracted@.skip(i as int) =~= Seq::<Result<String, String>>::empty());
        }
        self.chat_request(lang, file_process, input_text)
    }
}

} // verus!
