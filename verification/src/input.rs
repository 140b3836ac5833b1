//! Gathering the user's input: piped standard input or an interactively
//! edited temporary file, behind traits so that the interaction itself stays
//! with the caller. Blank input counts as a cancelled interaction.

use vstd::prelude::*;

verus! {

/// What gathering input produced.
#[derive(Debug)]
pub enum InputResult {
    Content(String),
    Cancelled,
}

/// A source of piped standard input. The real implementation reads the
/// process's stdin; tests substitute their own.
pub trait StdinReader {
    fn read_to_string(&mut self, buf: &mut String) -> Result<usize, std::io::Error>;

    fn is_atty(&self) -> bool;
}

/// Opens an interactive editor on the file at the given path and reports the
/// edited text. The real implementation runs the user's editor and reads the
/// file back; tests substitute their own.
pub trait EditorOpener {
    fn open_editor(&self, temp_path: &str) -> Result<String, std::io::Error>;
}

/// The Unicode White_Space set — the characters `char::is_whitespace`
/// accepts, and so the ones `str::trim` strips: the ASCII spacing characters,
/// next line, no-break space, ogham space mark, the en-quad..hair-space run,
/// the line and paragraph separators, narrow no-break space, medium
/// mathematical space, and ideographic space.
pub open spec fn is_ws(c: char) -> bool {
    ||| c == ' '
    ||| c == '\t'
    ||| c == '\n'
    ||| c as u32 == 0x000B
    ||| c as u32 == 0x000C
    ||| c == '\r'
    ||| c as u32 == 0x0085
    ||| c as u32 == 0x00A0
    ||| c as u32 == 0x1680
    ||| (0x2000 <= c as u32 && c as u32 <= 0x200A)
    ||| c as u32 == 0x2028
    ||| c as u32 == 0x2029
    ||| c as u32 == 0x202F
    ||| c as u32 == 0x205F
    ||| c as u32 == 0x3000
}

/// Text that holds nothing but whitespace — exactly the texts whose
/// `str::trim` is empty.
pub open spec fn is_blank(s: Seq<char>) -> bool {
    forall|i: int| 0 <= i < s.len() ==> is_ws(s[i])
}

fn char_is_ws(c: char) -> (r: bool)
    ensures
        r == is_ws(c),
{
    let u = c as u32;
    c == ' ' || c == '\t' || c == '\n' || u == 0x000B || u == 0x000C || c == '\r' || u == 0x0085
        || u == 0x00A0 || u == 0x1680 || (0x2000 <= u && u <= 0x200A) || u == 0x2028 || u == 0x2029
        || u == 0x202F || u == 0x205F || u == 0x3000
}

/// Whether the text holds nothing but whitespace, as `str::trim` would
/// decide.
pub fn is_blank_str(s: &str) -> (r: bool)
    ensures
        r == is_blank(s@),
{
    let n = s.unicode_len();
    let mut i: usize = 0;
    while i < n
        invariant
            i <= n,
            n == s@.len(),
            forall|j: int| 0 <= j < i ==> is_ws(s@[j]),
        decreases n - i,
    {
        let c = s.get_char(i);
        if !char_is_ws(c) {
            return false;
        }
        i += 1;
    }
    true
}

/// Blank text is a cancelled interaction; anything else is content, kept as
/// it came.
pub fn classify_input(content: String) -> (r: InputResult)
    ensures
        is_blank(content@) ==> r is Cancelled,
        !is_blank(content@) ==> (r matches InputResult::Content(c) && c@ == content@),
{
    if is_blank_str(content.as_str()) {
        InputResult::Cancelled
    } else {
        InputResult::Content(content)
    }
}

#[verifier::external_type_specification]
#[verifier::external_body]
pub struct ExIoError(std::io::Error);

/// Keeps the temporary file alive (and so present on disk) while the editor
/// runs. The handle is held opaquely: Verus refuses the declaration of
/// `tempfile::NamedTempFile`, whose type parameter defaults to a file handle
/// it does not support.
#[verifier::external_body]
struct TempHandle {
    file: tempfile::NamedTempFile,
}

/// Relies on `tempfile::NamedTempFile::new`: creates a fresh temporary file.
#[verifier::external_body]
fn new_temp_file() -> Result<TempHandle, std::io::Error> {
    match tempfile::NamedTempFile::new() {
        Ok(f) => Ok(TempHandle { file: f }),
        Err(e) => Err(e),
    }
}

/// Relies on `tempfile::NamedTempFile::path`: the file's path as text, when
/// the path is valid Unicode.
#[verifier::external_body]
fn temp_file_path(t: &TempHandle) -> Option<String> {
    t.file.path().to_str().map(|s| s.to_string())
}

/// Relies on `std::io::Error::new`: the error reported for a temporary file
/// path that is not valid Unicode.
#[verifier::external_body]
fn invalid_path_error() -> std::io::Error {
    std::io::Error::new(
        std::io::ErrorKind::InvalidData,
        "temporary file path is not valid Unicode",
    )
}

fn editor_flow<E: EditorOpener>(editor_opener: &E) -> (r: Result<InputResult, std::io::Error>)
    ensures
        r matches Ok(InputResult::Content(c)) ==> !is_blank(c@),
{
    let temp_file = match new_temp_file() {
        Ok(t) => t,
        Err(e) => {
            return Err(e);
        },
    };
    let temp_path = match temp_file_path(&temp_file) {
        Some(p) => p,
        None => {
            return Err(invalid_path_error());
        },
    };
    match editor_opener.open_editor(temp_path.as_str()) {
        Ok(contents) => Ok(classify_input(contents)),
        Err(e) => Err(e),
    }
}

/// Gathers one piece of input: through the editor when forced or when stdin
/// is a terminal, otherwise from the piped stdin. Whatever the source, blank
/// text comes back as `Cancelled` and content is never blank.
pub fn get_input<S: StdinReader, E: EditorOpener>(
    force_editor: bool,
    stdin_reader: &mut S,
    editor_opener: &E,
) -> (r: Result<InputResult, std::io::Error>)
    ensures
        r matches Ok(InputResult::Content(c)) ==> !is_blank(c@),
{
    if force_editor || stdin_reader.is_atty() {
        editor_flow(editor_opener)
    } else {
        let mut buffer = String::new();
        match stdin_reader.read_to_string(&mut buffer) {
            Ok(_) => Ok(classify_input(buffer)),
            Err(e) => Err(e),
        }
    }
}

} // verus!
