//! Request and response shapes of the execution service, and the closed set
//! of supported languages.

use vstd::prelude::*;

use crate::text::str_eq;

verus! {

/// The closed set of languages the service can run.
#[derive(Clone, Copy, Debug, PartialEq, Eq, Structural)]
pub enum Language {
    Python,
    JavaScript,
    Golang,
    Kotlin,
}

/// What `str::to_lowercase` returns; the result depends on the characters
/// of the input alone.
pub uninterp spec fn lower_of(s: Seq<char>) -> Seq<char>;

/// Relies on `str::to_lowercase`: Unicode lowercasing, a pure function of
/// the input characters.
#[verifier::external_body]
fn to_lowercase(s: &str) -> (r: String)
    ensures
        r@ == lower_of(s@),
{
    s.to_lowercase()
}

/// The language a lowercase tag denotes, if any.
pub open spec fn spec_language_of(s: Seq<char>) -> Option<Language> {
    if s == "python"@ {
        Some(Language::Python)
    } else if s == "javascript"@ {
        Some(Language::JavaScript)
    } else if s == "golang"@ {
        Some(Language::Golang)
    } else if s == "kotlin"@ {
        Some(Language::Kotlin)
    } else {
        None
    }
}

/// The lowercase tag of each language; parsing a language's own tag always
/// succeeds (see [`Language::of_lowered`]).
pub open spec fn spec_language_tag(language: Language) -> Seq<char> {
    match language {
        Language::Python => "python"@,
        Language::JavaScript => "javascript"@,
        Language::Golang => "golang"@,
        Language::Kotlin => "kotlin"@,
    }
}

impl Language {
    /// Maps an already-lowercased tag to a language: total, and `Some`
    /// exactly on the four supported tags.
    pub fn of_lowered(s: &str) -> (r: Option<Language>)
        ensures
            r == spec_language_of(s@),
    {
        if str_eq(s, "python") {
            Some(Language::Python)
        } else if str_eq(s, "javascript") {
            Some(Language::JavaScript)
        } else if str_eq(s, "golang") {
            Some(Language::Golang)
        } else if str_eq(s, "kotlin") {
            Some(Language::Kotlin)
        } else {
            None
        }
    }

    /// Parses a language tag case-insensitively: the input is lowercased and
    /// must then equal one of the four supported tags; any other text is a
    /// validation error carrying the offending tag, never a default.
    pub fn from_str(s: &str) -> (r: Result<Language, String>)
        ensures
            r is Ok <==> spec_language_of(lower_of(s@)) is Some,
            r is Ok ==> Some(r->Ok_0) == spec_language_of(lower_of(s@)),
            r is Err ==> r->Err_0@ == "Unsupported language: "@ + s@,
    {
        let lowered = to_lowercase(s);
        match Language::of_lowered(lowered.as_str()) {
            Some(language) => Ok(language),
            None => Err("Unsupported language: ".to_owned().concat(s)),
        }
    }
}

/// Parsing language tags is total on the closed set and never defaults:
/// each supported language's own lowercase tag parses back to exactly that
/// language, and to no other.
pub proof fn lemma_language_tag_round_trip(language: Language)
    ensures
        spec_language_of(spec_language_tag(language)) == Some(language),
{
    reveal_strlit("python");
    reveal_strlit("javascript");
    reveal_strlit("golang");
    reveal_strlit("kotlin");
    assert("python"@.len() == 6);
    assert("javascript"@.len() == 10);
    assert("golang"@.len() == 6);
    assert("kotlin"@.len() == 6);
    match language {
        Language::Python => {
        },
        Language::JavaScript => {
            assert("javascript"@ != "python"@);
        },
        Language::Golang => {
            assert("golang"@[0] != "python"@[0]);
            assert("golang"@ != "javascript"@);
        },
        Language::Kotlin => {
            assert("kotlin"@[0] != "python"@[0]);
            assert("kotlin"@ != "javascript"@);
            assert("kotlin"@[0] != "golang"@[0]);
        },
    }
}

/// One request to run a piece of source code.
pub struct CodeExecutionRequest {
    pub code: String,
    pub language: Language,
    pub timeout: Option<u64>,
    pub stdin: Option<String>,
}

impl CodeExecutionRequest {
    /// The empty request: no code, Python, no explicit timeout, no stdin.
    pub fn default() -> (r: CodeExecutionRequest)
        ensures
            r.code@ == Seq::<char>::empty(),
            r.language == Language::Python,
            r.timeout is None,
            r.stdin is None,
    {
        CodeExecutionRequest {
            code: String::new(),
            language: Language::Python,
            timeout: None,
            stdin: None,
        }
    }
}

/// The outcome of one execution. `duration_ms` is the measured wall-clock
/// time in milliseconds; the boundary that serialises responses renders it
/// as fractional seconds.
pub struct CodeExecutionResponse {
    pub execution_id: String,
    pub stdout: String,
    pub stderr: String,
    pub exit_code: i64,
    pub duration_ms: u64,
    pub timed_out: bool,
}

/// The value of a [`CodeExecutionResponse`], with every string as its
/// characters.
#[verifier::ext_equal]
pub ghost struct CodeExecutionResponseV {
    pub execution_id: Seq<char>,
    pub stdout: Seq<char>,
    pub stderr: Seq<char>,
    pub exit_code: i64,
    pub duration_ms: u64,
    pub timed_out: bool,
}

impl View for CodeExecutionResponse {
    type V = CodeExecutionResponseV;

    open spec fn view(&self) -> CodeExecutionResponseV {
        CodeExecutionResponseV {
            execution_id: self.execution_id@,
            stdout: self.stdout@,
            stderr: self.stderr@,
            exit_code: self.exit_code,
            duration_ms: self.duration_ms,
            timed_out: self.timed_out,
        }
    }
}

/// The query part of a file-upload execution request: the code itself
/// arrives separately as an uploaded file.
pub struct FileExecutionRequest {
    pub language: Language,
    pub timeout: Option<u64>,
}

/// An uploaded source file.
pub struct FileUpload {
    pub code: String,
}

} // verus!
