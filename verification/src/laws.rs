//! Properties that tie the service's steps together.

use vstd::prelude::*;
use crate::auth::{register_failure_text, duplicate_key_marker, is_email};
use crate::file::{SummaryProcess, DocumentKind, section, sections, kind_of_extension, stored_path, upload_dir, is_supported_language, prompt_for, chat_request_id, chat_request_en};
use crate::handler::{is_supported_extension, register_failure_status, summary_request_accepted};
use crate::request::SummaryRequest;
use crate::text::{has_substring, extension_of, after_last, lowercase_of};

verus! {

/// Every extension that an upload is accepted with names a kind whose text
/// can be read back, and no other extension does; the accepted file is
/// written to exactly the path that reading it back opens.
pub proof fn law_accepted_uploads_are_readable(file_id: Seq<char>, ext: Seq<char>)
    ensures
        is_supported_extension(ext) <==> kind_of_extension(ext) is Some,
        stored_path(upload_dir(), file_id, ext) == "./upload/"@ + file_id + "."@ + ext,
{
    assert(stored_path(upload_dir(), file_id, ext) =~= "./upload/"@ + file_id + "."@ + ext) by {
        reveal_strlit("./");
        reveal_strlit("upload");
        reveal_strlit("/");
        reveal_strlit("./upload/");
        assert("./"@ + "upload"@ + "/"@ =~= "./upload/"@);
    }
}

/// A summary request that passes the endpoint's check always gets a prompt:
/// the prompt builder never answers it with the unsupported-language error.
pub proof fn law_accepted_summary_request_gets_prompt(req: SummaryRequest, files: Seq<SummaryProcess>)
    ensures
        summary_request_accepted(req) ==> prompt_for(req.lang@, files, req.input_text) is Ok,
        !is_supported_language(req.lang@) ==> prompt_for(req.lang@, files, req.input_text) is Err,
{
}

/// The sections of two runs of files, one after the other.
pub proof fn lemma_sections_append(a: Seq<SummaryProcess>, b: Seq<SummaryProcess>, english: bool)
    ensures
        sections(a + b, english) == sections(a, english) + sections(b, english),
    decreases b.len(),
{
    if b.len() == 0 {
        assert(a + b =~= a);
        assert(sections(a, english) + sections(b, english) =~= sections(a, english));
    } else {
        lemma_sections_append(a, b.drop_last(), english);
        assert((a + b).drop_last() =~= a + b.drop_last());
        assert((a + b).last() == b.last());
        assert(sections(a, english) + sections(b.drop_last(), english) + section(b.last(), english)
            =~= sections(a, english) + (sections(b.drop_last(), english) + section(b.last(), english)));
    }
}

/// A prompt presents every file once, in the order given: its sections are
/// those of the files before the `i`-th, then the `i`-th file's own, then
/// those of the files after it.
pub proof fn law_prompt_presents_files_in_order(files: Seq<SummaryProcess>, english: bool, i: int)
    requires
        0 <= i < files.len(),
    ensures
        sections(files, english) == sections(files.take(i), english) + section(files[i], english)
            + sections(files.skip(i + 1), english),
        has_substring(sections(files, english), section(files[i], english)),
{
    let one = seq![files[i]];
    assert(files =~= files.take(i) + one + files.skip(i + 1));
    lemma_sections_append(files.take(i) + one, files.skip(i + 1), english);
    lemma_sections_append(files.take(i), one, english);
    assert(one.drop_last() =~= Seq::<SummaryProcess>::empty());
    assert(sections(Seq::<SummaryProcess>::empty(), english) =~= Seq::<char>::empty());
    assert(one.last() == files[i]);
    assert(sections(one, english) =~= section(files[i], english));
    let all = sections(files, english);
    let before = sections(files.take(i), english);
    let mine = section(files[i], english);
    assert(all.subrange(before.len() as int, (before.len() + mine.len()) as int) =~= mine);
    assert(0 <= before.len() as int && before.len() + mine.len() <= all.len());
}

/// A sign-up whose insert broke the unique constraint on e-mails is answered
/// 400 ("email already exist"); any other failed insert is answered 500.
pub proof fn law_taken_email_is_bad_request(db_error: Seq<char>)
    ensures
        register_failure_status(register_failure_text(db_error)) == if has_substring(
            db_error,
            duplicate_key_marker(),
        ) {
            400u16
        } else {
            500u16
        },
{
    lemma_taken_is_not_other();
}

/// "email already exist" is a substring of itself and not of
/// "error inserting new user".
proof fn lemma_taken_is_not_other()
    ensures
        has_substring("email already exist"@, "email already exist"@),
        !has_substring("error inserting new user"@, "email already exist"@),
{
    reveal_strlit("email already exist");
    reveal_strlit("error inserting new user");
    let taken = "email already exist"@;
    let other = "error inserting new user"@;
    let z: int = 0;
    assert(taken.subrange(z, z + taken.len()) =~= taken);
    assert forall|i: int| 0 <= i && i + taken.len() <= other.len() implies #[trigger] other.subrange(
        i,
        i + taken.len(),
    ) != taken by {
        let w = other.subrange(i, i + taken.len());
        if i == 0 {
            assert(w[1] == other[1]);
        } else {
            assert(w[0] == other[i]);
        }
    }
}

/// The Indonesian prompt, written out: with no files it is the opening line
/// and the closing request; each further file adds exactly its section
/// ("Nama file: {name}\n" and "Isi: {text}\n\n") just before the closing
/// request, which ends every prompt.
pub proof fn law_indonesian_prompt_grows_by_one_section(
    files: Seq<SummaryProcess>,
    f: SummaryProcess,
    input_text: Option<String>,
)
    ensures
        ({
            let open = "Saya telah mengekstrak teks dari file berikut:\n\n"@;
            let close = "tolong interaksi atau jawab dengan masukan berikut:\n\n"@ + match input_text {
                Some(q) => "dapatkah kamu merangkum isi dari file tersebut dan "@ + q@,
                None => "dapatkah kamu merangkum isi dari file tersebut"@,
            };
            let p = chat_request_id(files, input_text);
            let q = chat_request_id(files.push(f), input_text);
            &&& chat_request_id(Seq::empty(), input_text) == open + close
            &&& open.len() + close.len() <= p.len()
            &&& p == open + p.subrange(open.len() as int, p.len() - close.len()) + close
            &&& q == open + p.subrange(open.len() as int, p.len() - close.len()) + ("Nama file: "@
                + f.file_name_upload@ + "\n"@ + "Isi: "@ + f.text@ + "\n\n"@) + close
        }),
{
    let open = "Saya telah mengekstrak teks dari file berikut:\n\n"@;
    let close = crate::file::closing_id(input_text);
    let body = sections(files, false);
    let p = chat_request_id(files, input_text);
    assert(sections(Seq::<SummaryProcess>::empty(), false) =~= Seq::<char>::empty());
    assert(chat_request_id(Seq::empty(), input_text) =~= open + close);
    assert(p =~= open + body + close);
    assert(p.subrange(open.len() as int, p.len() - close.len()) =~= body);
    assert(files.push(f).drop_last() =~= files);
    assert(sections(files.push(f), false) == body + section(f, false));
    assert(chat_request_id(files.push(f), input_text) =~= open + body + section(f, false) + close);
}

/// The English prompt, written out: with no files it is the plural opening
/// line and the closing request; each further file adds exactly its section
/// ("File name: {name}\n" and "Content: {text}\n\n") just before the closing
/// request, and the opening line is singular exactly when there is one file.
pub proof fn law_english_prompt_grows_by_one_section(
    files: Seq<SummaryProcess>,
    f: SummaryProcess,
    input_text: Option<String>,
)
    ensures
        ({
            let one = "I have extracted the text from the following file:\n\n"@;
            let many = "I have extracted the text from the following files:\n\n"@;
            let open_p = if files.len() == 1 { one } else { many };
            let open_q = if files.len() == 0 { one } else { many };
            let close = "please interact or answer with this following input:\n\n"@ + match input_text {
                Some(q) => "can you summarize the content of the file and "@ + q@,
                None => "can you summarize the content of the file"@,
            };
            let p = chat_request_en(files, input_text);
            let q = chat_request_en(files.push(f), input_text);
            &&& chat_request_en(Seq::empty(), input_text) == many + close
            &&& open_p.len() + close.len() <= p.len()
            &&& p == open_p + p.subrange(open_p.len() as int, p.len() - close.len()) + close
            &&& q == open_q + p.subrange(open_p.len() as int, p.len() - close.len()) + ("File name: "@
                + f.file_name_upload@ + "\n"@ + "Content: "@ + f.text@ + "\n\n"@) + close
        }),
{
    let open_p = crate::file::opening_en(files.len());
    let close = crate::file::closing_en(input_text);
    let body = sections(files, true);
    let p = chat_request_en(files, input_text);
    assert(sections(Seq::<SummaryProcess>::empty(), true) =~= Seq::<char>::empty());
    assert(chat_request_en(Seq::empty(), input_text) =~= crate::file::opening_en(0) + close);
    assert(p =~= open_p + body + close);
    assert(p.subrange(open_p.len() as int, p.len() - close.len()) =~= body);
    assert(files.push(f).drop_last() =~= files);
    assert(sections(files.push(f), true) == body + section(f, true));
    assert(files.push(f).len() == files.len() + 1);
    assert(chat_request_en(files.push(f), input_text) =~= crate::file::opening_en(files.len() + 1) + body
        + section(f, true) + close);
}

/// Every file's section, written out, occurs in the prompt of either language.
pub proof fn law_prompt_mentions_every_file(files: Seq<SummaryProcess>, input_text: Option<String>, i: int)
    requires
        0 <= i < files.len(),
    ensures
        has_substring(
            chat_request_id(files, input_text),
            "Nama file: "@ + files[i].file_name_upload@ + "\n"@ + "Isi: "@ + files[i].text@ + "\n\n"@,
        ),
        has_substring(
            chat_request_en(files, input_text),
            "File name: "@ + files[i].file_name_upload@ + "\n"@ + "Content: "@ + files[i].text@ + "\n\n"@,
        ),
{
    law_prompt_presents_files_in_order(files, false, i);
    law_prompt_presents_files_in_order(files, true, i);
    lemma_substring_in_context(
        "Saya telah mengekstrak teks dari file berikut:\n\n"@,
        sections(files, false),
        crate::file::closing_id(input_text),
        section(files[i], false),
    );
    lemma_substring_in_context(
        crate::file::opening_en(files.len()),
        sections(files, true),
        crate::file::closing_en(input_text),
        section(files[i], true),
    );
}

/// A substring of the middle part is a substring of the whole.
pub proof fn lemma_substring_in_context(a: Seq<char>, m: Seq<char>, c: Seq<char>, n: Seq<char>)
    requires
        has_substring(m, n),
    ensures
        has_substring(a + m + c, n),
{
    let k = choose|k: int| 0 <= k && k + n.len() <= m.len() && #[trigger] m.subrange(k, k + n.len()) == n;
    let w = a + m + c;
    let j = a.len() + k;
    assert(w.subrange(j, j + n.len()) =~= m.subrange(k, k + n.len()));
}

/// The extension of a name that ends in `.` and then text without a dot is
/// that text, lower-cased, whatever comes before the dot; a name without a
/// dot is its own extension, lower-cased.
pub proof fn law_extension_is_text_after_last_dot(prefix: Seq<char>, ext: Seq<char>)
    requires
        !ext.contains('.'),
    ensures
        extension_of(prefix + "."@ + ext) == lowercase_of(ext),
        extension_of(ext) == lowercase_of(ext),
{
    reveal_strlit(".");
    lemma_after_last_of_dotless_tail(prefix + "."@, ext);
    lemma_after_last_of_dotless_tail(Seq::empty(), ext);
    assert(Seq::<char>::empty() + ext =~= ext);
}

/// `after_last` past a run without the separator: the run itself when it
/// follows a separator, all of it when nothing comes before.
proof fn lemma_after_last_of_dotless_tail(head: Seq<char>, tail: Seq<char>)
    requires
        !tail.contains('.'),
        head.len() == 0 || head.last() == '.',
    ensures
        after_last(head + tail, '.') == tail,
    decreases tail.len(),
{
    if tail.len() == 0 {
        assert(head + tail =~= head);
        if head.len() == 0 {
            assert(head =~= tail);
        }
    } else {
        let t = tail.drop_last();
        assert(!t.contains('.')) by {
            assert forall|k: int| 0 <= k < t.len() implies t[k] != '.' by {
                assert(t[k] == tail[k]);
            }
        }
        lemma_after_last_of_dotless_tail(head, t);
        assert((head + tail).drop_last() =~= head + t);
        assert((head + tail).last() == tail.last());
        assert(tail.last() != '.') by {
            assert(tail[tail.len() - 1] == tail.last());
        }
        assert(t.push(tail.last()) =~= tail);
    }
}

/// The extensions an upload is accepted with are exactly pdf, docx and txt,
/// and each is read back by its own kind of reader; every other extension is
/// refused and names no reader.
pub proof fn law_readable_extensions_are_three(ext: Seq<char>)
    ensures
        is_supported_extension(ext) <==> (ext == "pdf"@ || ext == "docx"@ || ext == "txt"@),
        (kind_of_extension(ext) is Some) <==> (ext == "pdf"@ || ext == "docx"@ || ext == "txt"@),
        ext == "pdf"@ ==> kind_of_extension(ext) == Some(DocumentKind::Pdf),
        ext == "docx"@ ==> kind_of_extension(ext) == Some(DocumentKind::Docx),
        ext == "txt"@ ==> kind_of_extension(ext) == Some(DocumentKind::Txt),
{
    reveal_strlit("pdf");
    reveal_strlit("docx");
    reveal_strlit("txt");
    assert("pdf"@.len() != "docx"@.len());
    assert("txt"@.len() != "docx"@.len());
    assert("pdf"@[0] != "txt"@[0]);
}

/// A summary request passes the check exactly when it names at least one
/// file and asks for `id` or `en`, whatever the number of files.
pub proof fn law_summary_request_accepted_exactly(req: SummaryRequest)
    ensures
        summary_request_accepted(req) <==> (req.files@.len() > 0 && (req.lang@ == "id"@ || req.lang@
            == "en"@)),
{
}

/// An address is accepted at sign-up exactly when it holds an `@`, whatever
/// else it holds.
pub proof fn law_email_needs_only_an_at_sign(email: Seq<char>, a: Seq<char>, b: Seq<char>)
    ensures
        is_email(email) <==> (exists|i: int| 0 <= i < email.len() && email[i] == '@'),
        is_email(a + "@"@ + b),
{
    reveal_strlit("@");
    let w = a + "@"@ + b;
    assert(w[a.len() as int] == '@');
}

} // verus!
