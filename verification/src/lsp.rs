//! Language server support: the built-in server table, message framing,
//! header reading and the classification of incoming messages.

use vstd::prelude::*;
use vstd::utf8::encode_utf8;
use crate::json::{JsonValue, entries_get, json_get, json_parse, json_str, json_u64, parse_json, take_member};
use crate::text::{
    all_digits, chars_of, concat, decimal, decimal_seq, has_prefix, is_digit, is_ws,
    lemma_decimal_digits, own, parse_usize, parse_usize_seq, starts_with, str_eq,
    string_from_range, trim, trim_end_seq, trim_seq, trim_start_seq, views,
};

verus! {

/// Identifier of a running language server.
#[derive(Debug, Clone)]
pub struct ServerId(pub String);

/// How to start and recognise a language server.
#[derive(Debug, Clone)]
pub struct LspServerConfig {
    pub language_id: String,
    pub command: String,
    pub args: Vec<String>,
    pub extensions: Vec<String>,
    pub detect_files: Vec<String>,
    pub install_hint: String,
}

pub struct LspServerConfigView {
    pub language_id: Seq<char>,
    pub command: Seq<char>,
    pub args: Seq<Seq<char>>,
    pub extensions: Seq<Seq<char>>,
    pub detect_files: Seq<Seq<char>>,
    pub install_hint: Seq<char>,
}

impl View for LspServerConfig {
    type V = LspServerConfigView;

    open spec fn view(&self) -> LspServerConfigView {
        LspServerConfigView {
            language_id: self.language_id@,
            command: self.command@,
            args: views(self.args@),
            extensions: views(self.extensions@),
            detect_files: views(self.detect_files@),
            install_hint: self.install_hint@,
        }
    }
}

pub open spec fn server(
    language_id: Seq<char>,
    command: Seq<char>,
    args: Seq<Seq<char>>,
    extensions: Seq<Seq<char>>,
    detect_files: Seq<Seq<char>>,
    install_hint: Seq<char>,
) -> LspServerConfigView {
    LspServerConfigView { language_id, command, args, extensions, detect_files, install_hint }
}

/// The built-in servers by name: rust-analyzer, typescript-language-server,
/// pylsp, gopls and clangd.
pub open spec fn builtin_table() -> Seq<(Seq<char>, LspServerConfigView)> {
    seq![
        ("rust"@, server("rust"@, "rust-analyzer"@, seq![], seq!["rs"@], seq!["Cargo.toml"@], "rustup component add rust-analyzer"@)),
        ("typescript"@, server("typescript"@, "typescript-language-server"@, seq!["--stdio"@], seq!["ts"@, "tsx"@, "js"@, "jsx"@], seq!["tsconfig.json"@, "package.json"@], "npm install -g typescript-language-server typescript"@)),
        ("python"@, server("python"@, "pylsp"@, seq![], seq!["py"@], seq!["pyproject.toml"@, "setup.py"@], "pip install python-lsp-server"@)),
        ("go"@, server("go"@, "gopls"@, seq!["serve"@], seq!["go"@], seq!["go.mod"@], "go install golang.org/x/tools/gopls@latest"@)),
        ("c"@, server("c"@, "clangd"@, seq![], seq!["c"@, "h"@, "cpp"@, "hpp"@], seq!["compile_commands.json"@, "Makefile"@], "Install clangd from your system package manager"@)),
    ]
}

/// The views of a table of named configurations.
pub open spec fn table_view(t: Seq<(String, LspServerConfig)>) -> Seq<(Seq<char>, LspServerConfigView)> {
    t.map_values(|e: (String, LspServerConfig)| (e.0@, e.1@))
}

fn make_config(
    language_id: &str,
    command: &str,
    args: Vec<String>,
    extensions: Vec<String>,
    detect_files: Vec<String>,
    install_hint: &str,
) -> (res: LspServerConfig)
    ensures
        res@ == server(
            language_id@,
            command@,
            views(args@),
            views(extensions@),
            views(detect_files@),
            install_hint@,
        ),
{
    LspServerConfig {
        language_id: own(language_id),
        command: own(command),
        args,
        extensions,
        detect_files,
        install_hint: own(install_hint),
    }
}

impl LspServerConfig {
    /// The built-in server configurations, each under its language name.
    pub fn builtin_configs() -> (res: Vec<(String, LspServerConfig)>)
        ensures
            table_view(res@) == builtin_table(),
    {
        let mut configs: Vec<(String, LspServerConfig)> = Vec::new();
        configs.push((own("rust"), make_config("rust", "rust-analyzer", vec![], vec![own("rs")], vec![own("Cargo.toml")], "rustup component add rust-analyzer")));
        configs.push((own("typescript"), make_config("typescript", "typescript-language-server", vec![own("--stdio")], vec![own("ts"), own("tsx"), own("js"), own("jsx")], vec![own("tsconfig.json"), own("package.json")], "npm install -g typescript-language-server typescript")));
        configs.push((own("python"), make_config("python", "pylsp", vec![], vec![own("py")], vec![own("pyproject.toml"), own("setup.py")], "pip install python-lsp-server")));
        configs.push((own("go"), make_config("go", "gopls", vec![own("serve")], vec![own("go")], vec![own("go.mod")], "go install golang.org/x/tools/gopls@latest")));
        configs.push((own("c"), make_config("c", "clangd", vec![], vec![own("c"), own("h"), own("cpp"), own("hpp")], vec![own("compile_commands.json"), own("Makefile")], "Install clangd from your system package manager")));
        proof {
            let t = builtin_table();
            assert(views(configs@[0].1.args@) =~= t[0].1.args);
            assert(views(configs@[0].1.extensions@) =~= t[0].1.extensions);
            assert(views(configs@[0].1.detect_files@) =~= t[0].1.detect_files);
            assert(views(configs@[1].1.args@) =~= t[1].1.args);
            assert(views(configs@[1].1.extensions@) =~= t[1].1.extensions);
            assert(views(configs@[1].1.detect_files@) =~= t[1].1.detect_files);
            assert(views(configs@[2].1.args@) =~= t[2].1.args);
            assert(views(configs@[2].1.extensions@) =~= t[2].1.extensions);
            assert(views(configs@[2].1.detect_files@) =~= t[2].1.detect_files);
            assert(views(configs@[3].1.args@) =~= t[3].1.args);
            assert(views(configs@[3].1.extensions@) =~= t[3].1.extensions);
            assert(views(configs@[3].1.detect_files@) =~= t[3].1.detect_files);
            assert(views(configs@[4].1.args@) =~= t[4].1.args);
            assert(views(configs@[4].1.extensions@) =~= t[4].1.extensions);
            assert(views(configs@[4].1.detect_files@) =~= t[4].1.detect_files);
            assert(table_view(configs@) =~= builtin_table());
        }
        configs
    }

    /// The first configuration in `configs` that serves files with extension
    /// `ext`.
    pub fn find_for_extension<'a>(configs: &'a Vec<(String, LspServerConfig)>, ext: &str) -> (res:
        Option<&'a LspServerConfig>)
        ensures
            match res {
                Some(c) => exists|i: int|
                    0 <= i < configs@.len() && configs@[i].1 == *c && configs@[i].1@.extensions.contains(
                        ext@,
                    ) && forall|j: int|
                        0 <= j < i ==> !(#[trigger] configs@[j].1@.extensions.contains(ext@)),
                None => forall|j: int|
                    0 <= j < configs@.len() ==> !(#[trigger] configs@[j].1@.extensions.contains(ext@)),
            },
    {
        let mut i: usize = 0;
        while i < configs.len()
            invariant
                i <= configs@.len(),
                forall|j: int|
                    0 <= j < i ==> !(#[trigger] configs@[j].1@.extensions.contains(ext@)),
            decreases configs@.len() - i,
        {
            let exts = &configs[i].1.extensions;
            let mut k: usize = 0;
            while k < exts.len()
                invariant
                    i < configs@.len(),
                    k <= exts@.len(),
                    *exts == configs@[i as int].1.extensions,
                    forall|j: int| 0 <= j < k ==> views(exts@)[j] != ext@,
                    forall|j: int|
                        0 <= j < i ==> !(#[trigger] configs@[j].1@.extensions.contains(ext@)),
                decreases exts@.len() - k,
            {
                if str_eq(exts[k].as_str(), ext) {
                    assert(views(exts@)[k as int] == ext@);
                    assert(configs@[i as int].1@.extensions.contains(ext@));
                    return Some(&configs[i].1);
                }
                k += 1;
            }
            i += 1;
        }
        None
    }
}

/// Prefix of the header that frames a message.
pub const CONTENT_LENGTH: &'static str = "Content-Length: ";

/// The framed message: the `Content-Length` header with the UTF-8 length
/// of `body`, a blank line, then the body.
pub open spec fn framed(body: Seq<char>) -> Seq<char> {
    CONTENT_LENGTH@ + decimal_seq((encode_utf8(body).len() as usize) as nat) + "\r\n\r\n"@ + body
}

/// Message framing over stdio.
pub struct Transport;

impl Transport {
    /// `body` framed with its `Content-Length` header.
    pub fn content_length_header(body: &str) -> (res: String)
        ensures
            res@ == framed(body@),
    {
        let header = concat(CONTENT_LENGTH, decimal(body.len()).as_str());
        let with_gap = concat(header.as_str(), "\r\n\r\n");
        concat(with_gap.as_str(), body)
    }
}

/// What one header line says.
pub enum HeaderLine {
    /// The blank line that ends the headers.
    End,
    /// A `Content-Length` header, with its value when it is a number.
    ContentLength(Option<usize>),
    /// Any other header.
    Other,
}

/// The meaning of a header line, trimmed first: blank ends the headers; a
/// `Content-Length: ` line gives the trimmed rest parsed as a number.
pub open spec fn header_of(raw: Seq<char>) -> HeaderLine {
    let line = trim_seq(raw);
    if line.len() == 0 {
        HeaderLine::End
    } else if has_prefix(line, CONTENT_LENGTH@) {
        HeaderLine::ContentLength(
            match parse_usize_seq(trim_seq(line.subrange(CONTENT_LENGTH@.len() as int, line.len() as int))) {
                Some(n) => Some(n as usize),
                None => None,
            },
        )
    } else {
        HeaderLine::Other
    }
}

/// Reads one header line.
pub fn read_header_line(raw: &str) -> (res: HeaderLine)
    ensures
        res == header_of(raw@),
{
    let line = trim(raw);
    if line.as_str().is_empty() {
        return HeaderLine::End;
    }
    if starts_with(line.as_str(), CONTENT_LENGTH) {
        let cs = chars_of(line.as_str());
        let prefix = chars_of(CONTENT_LENGTH);
        let rest = string_from_range(&cs, prefix.len(), cs.len());
        let value = trim(rest.as_str());
        return HeaderLine::ContentLength(parse_usize(value.as_str()));
    }
    HeaderLine::Other
}

/// An incoming message, sorted out.
pub enum LspIncoming {
    /// The answer to request `id`, with its `error` and `result` members as
    /// they came (see [`response_outcome`] for what the answer is).
    Response { id: u64, error: Option<JsonValue>, result: Option<JsonValue> },
    /// A notification from the server.
    Notification { method: String, params: JsonValue },
    /// Neither.
    Ignored,
}

/// How a message is sorted: with a numeric `id` it answers that request
/// (keeping its `error` and `result` members); else with a string `method`
/// it is a notification (its `params`, or an empty object); anything else is
/// ignored.
pub open spec fn incoming_ok(body: JsonValue, res: LspIncoming) -> bool {
    match json_u64(json_get(body, "id"@)) {
        Some(id) => res == LspIncoming::Response {
            id,
            error: json_get(body, "error"@),
            result: json_get(body, "result"@),
        },
        None => match json_str(json_get(body, "method"@)) {
            Some(m) => match res {
                LspIncoming::Notification { method, params } => method@ == m && match json_get(
                    body,
                    "params"@,
                ) {
                    Some(p) => params == p,
                    None => params matches JsonValue::Object(es) && es@.len() == 0,
                },
                _ => false,
            },
            None => res is Ignored,
        },
    }
}

/// Sorts out an incoming message body.
pub fn classify_message(body: JsonValue) -> (res: LspIncoming)
    ensures
        incoming_ok(body, res),
{
    let id = match body.get("id") {
        Some(v) => v.as_u64(),
        None => None,
    };
    let method = match body.get("method") {
        Some(m) => m.as_text(),
        None => None,
    };
    match body {
        JsonValue::Object(mut es) => {
            let ghost entries = es@;
            match id {
                Some(id) => {
                    let ghost before = es@;
                    let error = take_member(&mut es, "error");
                    proof {
                        reveal_strlit("error");
                        reveal_strlit("result");
                        assert("error"@.len() != "result"@.len());
                        assert(entries_get(es@, "result"@) == entries_get(before, "result"@));
                    }
                    let result = take_member(&mut es, "result");
                    LspIncoming::Response { id, error, result }
                },
                None => match method {
                    Some(method) => {
                        let params = match take_member(&mut es, "params") {
                            Some(p) => p,
                            None => JsonValue::Object(Vec::new()),
                        };
                        LspIncoming::Notification { method, params }
                    },
                    None => LspIncoming::Ignored,
                },
            }
        },
        _ => LspIncoming::Ignored,
    }
}

/// The notification that carries a document's diagnostics.
pub const PUBLISH_DIAGNOSTICS: &'static str = "textDocument/publishDiagnostics";

/// Whether a notification carries diagnostics (the only kind handled).
pub fn is_diagnostics_notification(method: &str) -> (res: bool)
    ensures
        res == (method@ == PUBLISH_DIAGNOSTICS@),
{
    str_eq(method, PUBLISH_DIAGNOSTICS)
}

/// What a response answers: its error when it has one, else its result
/// (none when the response carries neither).
pub fn response_outcome<'a>(error: &'a Option<JsonValue>, result: &'a Option<JsonValue>) -> (res:
    Result<Option<&'a JsonValue>, &'a JsonValue>)
    ensures
        match error {
            Some(e) => res == Err::<Option<&JsonValue>, &JsonValue>(e),
            None => match result {
                Some(r) => res == Ok::<Option<&JsonValue>, &JsonValue>(Some(r)),
                None => res == Ok::<Option<&JsonValue>, &JsonValue>(None),
            },
        },
{
    match error {
        Some(e) => Err(e),
        None => match result {
            Some(r) => Ok(Some(r)),
            None => Ok(None),
        },
    }
}

/// A diagnostic reduced to plain values.
#[derive(Debug, Clone)]
pub struct SimpleDiagnostic {
    pub message: String,
    pub severity: String,
    pub start_line: u32,
    pub start_col: u32,
    pub end_line: u32,
    pub end_col: u32,
    pub source: Option<String>,
}

/// The name of an LSP diagnostic severity code (1 error, 2 warning,
/// 3 information, 4 hint); anything else, or none, reads as `info`.
pub open spec fn severity_name(code: Option<i32>) -> Seq<char> {
    match code {
        Some(1) => "error"@,
        Some(2) => "warning"@,
        Some(3) => "info"@,
        Some(4) => "hint"@,
        _ => "info"@,
    }
}

impl SimpleDiagnostic {
    /// A diagnostic from its parts; the severity is given by its LSP code.
    pub fn from_parts(
        message: String,
        severity_code: Option<i32>,
        start_line: u32,
        start_col: u32,
        end_line: u32,
        end_col: u32,
        source: Option<String>,
    ) -> (res: Self)
        ensures
            res.message@ == message@,
            res.severity@ == severity_name(severity_code),
            res.start_line == start_line,
            res.start_col == start_col,
            res.end_line == end_line,
            res.end_col == end_col,
            res.source == source,
    {
        let severity = match severity_code {
            Some(1) => own("error"),
            Some(2) => own("warning"),
            Some(3) => own("info"),
            Some(4) => own("hint"),
            _ => own("info"),
        };
        SimpleDiagnostic { message, severity, start_line, start_col, end_line, end_col, source }
    }
}


/// What the reader of a server's output does next.
pub enum ReadStep {
    /// Read another header line.
    NextLine,
    /// The headers are over: read a body of this many bytes.
    ReadBody(usize),
    /// The headers are over but gave no length: start on the next message.
    SkipMessage,
}

/// The header-reading state of a server's output stream: the length
/// announced so far for the message being read.
pub struct HeaderReader {
    pub content_length: Option<usize>,
}

impl HeaderReader {
    /// A reader at the start of a message.
    pub fn new() -> (res: Self)
        ensures
            res.content_length is None,
    {
        HeaderReader { content_length: None }
    }

    /// Takes one header line. A `Content-Length` line sets the length (to
    /// nothing when its value is not a number); other lines leave it; the
    /// blank line ends the headers, reads the body when a length was given,
    /// and starts the next message afresh.
    pub fn on_line(&mut self, raw: &str) -> (step: ReadStep)
        ensures
            match header_of(raw@) {
                HeaderLine::End => {
                    &&& final(self).content_length is None
                    &&& step == match old(self).content_length {
                        Some(n) => ReadStep::ReadBody(n),
                        None => ReadStep::SkipMessage,
                    }
                },
                HeaderLine::ContentLength(v) => step is NextLine && final(self).content_length == v,
                HeaderLine::Other => step is NextLine && final(self).content_length == old(
                    self,
                ).content_length,
            },
    {
        match read_header_line(raw) {
            HeaderLine::End => {
                let step = match self.content_length {
                    Some(n) => ReadStep::ReadBody(n),
                    None => ReadStep::SkipMessage,
                };
                self.content_length = None;
                step
            },
            HeaderLine::ContentLength(v) => {
                self.content_length = v;
                ReadStep::NextLine
            },
            HeaderLine::Other => ReadStep::NextLine,
        }
    }
}

/// Reads a message body: `None` when it is not JSON, else the message
/// sorted out.
pub fn read_message(body: &str) -> (res: Option<LspIncoming>)
    ensures
        match json_parse(body@) {
            Some(v) => res matches Some(m) && incoming_ok(v, m),
            None => res is None,
        },
{
    match parse_json(body) {
        Some(v) => Some(classify_message(v)),
        None => None,
    }
}


/// The first line of a framed message: the `Content-Length` header with its
/// line break.
pub open spec fn header_line(n: nat) -> Seq<char> {
    CONTENT_LENGTH@ + decimal_seq(n) + "\r\n"@
}

proof fn lemma_digit_not_ws(c: char)
    requires
        is_digit(c),
    ensures
        !is_ws(c),
{
}

proof fn lemma_trim_digits(d: Seq<char>)
    requires
        d.len() > 0,
        all_digits(d),
    ensures
        trim_seq(d) == d,
{
    lemma_digit_not_ws(d[0]);
    lemma_digit_not_ws(d[d.len() - 1]);
    assert(trim_start_seq(d) == d);
    assert(d.last() == d[d.len() - 1]);
    assert(trim_end_seq(d) == d);
}

/// A framed message is its header line, a blank line, then the body; and
/// reading the header line back gives the body's length in bytes, which a
/// blank line then lets the reader take.
pub proof fn law_framing_read_back(body: Seq<char>)
    ensures
        framed(body) == header_line((encode_utf8(body).len() as usize) as nat) + "\r\n"@ + body,
        header_of(header_line((encode_utf8(body).len() as usize) as nat)) == HeaderLine::ContentLength(
            Some(encode_utf8(body).len() as usize),
        ),
        header_of("\r\n"@) == HeaderLine::End,
{
    let n = encode_utf8(body).len() as usize;
    let d = decimal_seq(n as nat);
    lemma_decimal_digits(n as nat);
    reveal_strlit("Content-Length: ");
    reveal_strlit("\r\n");
    reveal_strlit("\r\n\r\n");
    let cl = CONTENT_LENGTH@;
    assert(cl.len() == 16);
    let line = header_line(n as nat);
    assert(framed(body) =~= line + "\r\n"@ + body);
    // Trimming the header line drops exactly its line break.
    let core = cl + d;
    assert(line =~= core + "\r\n"@);
    assert(!is_ws(line[0]));
    assert(trim_start_seq(line) == line);
    assert(line.drop_last() =~= core + seq!['\r']);
    assert(line.last() == '\n');
    assert((core + seq!['\r']).drop_last() =~= core);
    assert((core + seq!['\r']).last() == '\r');
    lemma_digit_not_ws(d[d.len() - 1]);
    assert(core.last() == d[d.len() - 1]);
    assert(trim_end_seq(core) == core);
    assert(trim_end_seq(core + seq!['\r']) == core);
    assert(trim_end_seq(line) == core);
    assert(trim_seq(line) == core);
    // What follows the prefix is the number, read back whole.
    assert(has_prefix(core, cl)) by {
        assert(core.subrange(0, 16) =~= cl);
    }
    assert(core.subrange(16, core.len() as int) =~= d);
    lemma_trim_digits(d);
    assert(d[0] != '+') by {
        assert(is_digit(d[0]));
    }
    assert(parse_usize_seq(d) == Some(n as nat));
    // The blank line ends the headers.
    let blank = "\r\n"@;
    assert(trim_start_seq(blank.drop_first().drop_first()) == Seq::<char>::empty());
    assert(blank.drop_first().drop_first() =~= Seq::<char>::empty());
    assert(trim_start_seq(blank.drop_first()) == Seq::<char>::empty());
    assert(trim_start_seq(blank) == Seq::<char>::empty());
}

} // verus!
