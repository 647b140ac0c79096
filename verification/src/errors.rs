//! Error types for XMILE parsing and validation.

use vstd::prelude::*;
use vstd::string::*;
use crate::text::{format_usize, join_strings, spec_int_text, spec_join, spec_texts};
use crate::validation::ValidationResult;

verus! {

/// Context information for error reporting.
#[derive(Debug, Clone, PartialEq, Eq)]
pub struct ErrorContext {
    /// The file path where the error occurred (if available).
    pub file_path: Option<String>,
    /// The line number where the error occurred (if available).
    pub line: Option<usize>,
    /// The column number where the error occurred (if available).
    pub column: Option<usize>,
    /// Additional context about what was being parsed.
    pub parsing: Option<String>,
}

/// The text held by an optional string, if any.
pub open spec fn opt_text(o: Option<String>) -> Option<Seq<char>> {
    match o {
        Some(s) => Some(s@),
        None => None,
    }
}

impl ErrorContext {
    /// The context holds exactly the given file path, line, column and parsing note.
    pub open spec fn holds(
        self,
        file_path: Option<Seq<char>>,
        line: Option<usize>,
        column: Option<usize>,
        parsing: Option<Seq<char>>,
    ) -> bool {
        &&& opt_text(self.file_path) == file_path
        &&& self.line == line
        &&& self.column == column
        &&& opt_text(self.parsing) == parsing
    }

    /// Create a new empty error context.
    pub fn new() -> (c: Self)
        ensures
            c.holds(None, None, None, None),
    {
        ErrorContext { file_path: None, line: None, column: None, parsing: None }
    }

    /// Create an error context with file path.
    pub fn with_file_path(path: &str) -> (c: Self)
        ensures
            c.holds(Some(path@), None, None, None),
    {
        ErrorContext { file_path: Some(String::from_str(path)), line: None, column: None, parsing: None }
    }

    /// Create an error context with line number.
    pub fn with_line(line: usize) -> (c: Self)
        ensures
            c.holds(None, Some(line), None, None),
    {
        ErrorContext { file_path: None, line: Some(line), column: None, parsing: None }
    }

    /// Create an error context with file path and line number.
    pub fn with_file_and_line(path: &str, line: usize) -> (c: Self)
        ensures
            c.holds(Some(path@), Some(line), None, None),
    {
        ErrorContext {
            file_path: Some(String::from_str(path)),
            line: Some(line),
            column: None,
            parsing: None,
        }
    }

    /// Add parsing context information.
    pub fn with_parsing(self, parsing: &str) -> (c: Self)
        ensures
            c.holds(opt_text(self.file_path), self.line, self.column, Some(parsing@)),
    {
        let mut c = self;
        c.parsing = Some(String::from_str(parsing));
        c
    }

    /// Add column information.
    pub fn with_column(self, column: usize) -> (c: Self)
        ensures
            c.holds(opt_text(self.file_path), self.line, Some(column), opt_text(self.parsing)),
    {
        let mut c = self;
        c.column = Some(column);
        c
    }

    /// The pieces of the context's text, in order: file, position, parsing note.
    pub open spec fn spec_parts(self) -> Seq<Seq<char>> {
        let file: Seq<Seq<char>> = match self.file_path {
            Some(p) => seq![" in file '"@ + p@ + "'"@],
            None => Seq::empty(),
        };
        let position: Seq<Seq<char>> = match self.line {
            Some(l) => match self.column {
                Some(c) => seq![" at line "@ + spec_int_text(l as int) + ", column "@ + spec_int_text(c as int)],
                None => seq![" at line "@ + spec_int_text(l as int)],
            },
            None => Seq::empty(),
        };
        let parsing: Seq<Seq<char>> = match self.parsing {
            Some(p) => seq![" while parsing "@ + p@],
            None => Seq::empty(),
        };
        file + position + parsing
    }

    /// The context as it is shown inside error messages: its pieces joined by `,`, or
    /// nothing at all for an empty context.
    pub open spec fn spec_text(self) -> Seq<char> {
        spec_join(self.spec_parts(), ","@)
    }

    /// The context as it is shown inside error messages.
    pub fn describe(&self) -> (r: String)
        ensures
            r@ == self.spec_text(),
    {
        let mut parts: Vec<String> = Vec::new();
        let ghost file: Seq<Seq<char>> = Seq::empty();
        let ghost position: Seq<Seq<char>> = Seq::empty();
        let ghost parsing: Seq<Seq<char>> = Seq::empty();
        match &self.file_path {
            Some(p) => {
                let mut t = String::from_str(" in file '");
                t.append(p.as_str());
                t.append("'");
                parts.push(t);
            },
            None => {},
        }
        let ghost after_file = spec_texts(parts@);
        match self.line {
            Some(l) => {
                let mut t = String::from_str(" at line ");
                let ls = format_usize(l);
                t.append(ls.as_str());
                match self.column {
                    Some(c) => {
                        t.append(", column ");
                        let cs = format_usize(c);
                        t.append(cs.as_str());
                    },
                    None => {},
                }
                parts.push(t);
            },
            None => {},
        }
        let ghost after_position = spec_texts(parts@);
        match &self.parsing {
            Some(p) => {
                let mut t = String::from_str(" while parsing ");
                t.append(p.as_str());
                parts.push(t);
            },
            None => {},
        }
        proof {
            assert(spec_texts(parts@) =~= self.spec_parts());
        }
        join_strings(&parts, ",")
    }
}

impl Default for ErrorContext {
    fn default() -> (c: Self)
        ensures
            c.holds(None, None, None, None),
    {
        Self::new()
    }
}


/// An error met while reading or validating an XMILE file.
#[derive(Debug)]
pub enum XmileError {
    /// Reading the file failed; holds the message of the I/O error.
    Io(String),
    /// The XML is malformed.
    Xml { message: String, context: ErrorContext },
    /// The XML does not have the structure an XMILE file needs.
    Deserialize { message: String, context: ErrorContext },
    /// The file is well formed but breaks an XMILE rule.
    Validation { message: String, context: ErrorContext, warnings: Vec<String>, errors: Vec<String> },
    /// Several errors at once.
    Multiple(Vec<XmileError>),
}

/// The text of an error, as it is displayed.
pub open spec fn spec_error_text(e: XmileError) -> Seq<char>
    decreases e,
{
    match e {
        XmileError::Io(m) => "IO error reading file: "@ + m@,
        XmileError::Xml { message, context } => "XML parsing error"@ + context.spec_text() + ": "@ + message@,
        XmileError::Deserialize { message, context } => "Deserialization error"@ + context.spec_text() + ": "@
            + message@,
        XmileError::Validation { message, context, .. } => "Validation error"@ + context.spec_text() + ": "@
            + message@,
        XmileError::Multiple(v) => "Multiple errors occurred:\n"@ + spec_join(spec_error_lines(v@), "\n"@),
    }
}

/// The lines `  1. first`, `  2. second`, ... for a list of errors, joined by newlines.
pub open spec fn spec_error_list_text(errors: Seq<XmileError>) -> Seq<char> {
    spec_join(spec_error_lines(errors), "\n"@)
}

/// One line per error: its position counted from one, a dot, and its text.
pub open spec fn spec_error_lines(errors: Seq<XmileError>) -> Seq<Seq<char>>
    decreases errors,
{
    if errors.len() == 0 {
        Seq::empty()
    } else {
        proof {
            assert(decreases_to!(errors => errors.drop_last()));
        }
        let last = errors.last();
        spec_error_lines(errors.drop_last()).push(
            "  "@ + spec_int_text(errors.len() as int) + ". "@ + spec_error_text(last),
        )
    }
}


impl XmileError {
    /// The error's text, as it is displayed.
    pub fn message(&self) -> (r: String)
        ensures
            r@ == spec_error_text(*self),
        decreases self,
    {
        match self {
            XmileError::Io(m) => {
                let mut r = String::from_str("IO error reading file: ");
                r.append(m.as_str());
                r
            },
            XmileError::Xml { message, context } => {
                let mut r = String::from_str("XML parsing error");
                let c = context.describe();
                r.append(c.as_str());
                r.append(": ");
                r.append(message.as_str());
                r
            },
            XmileError::Deserialize { message, context } => {
                let mut r = String::from_str("Deserialization error");
                let c = context.describe();
                r.append(c.as_str());
                r.append(": ");
                r.append(message.as_str());
                r
            },
            XmileError::Validation { message, context, .. } => {
                let mut r = String::from_str("Validation error");
                let c = context.describe();
                r.append(c.as_str());
                r.append(": ");
                r.append(message.as_str());
                r
            },
            XmileError::Multiple(v) => {
                let mut r = String::from_str("Multiple errors occurred:\n");
                proof {
                    assert(decreases_to!(*self => v@));
                }
                let list = format_errors(v.as_slice());
                r.append(list.as_str());
                r
            },
        }
    }
}

/// Lists errors one per line, numbered from one: `  1. first error`.
pub fn format_errors(errors: &[XmileError]) -> (r: String)
    ensures
        r@ == spec_error_list_text(errors@),
    decreases errors@,
{
    let mut lines: Vec<String> = Vec::new();
    let mut i: usize = 0;
    while i < errors.len()
        invariant
            i <= errors@.len(),
            spec_texts(lines@) == spec_error_lines(errors@.take(i as int)),
        decreases errors@.len() - i,
    {
        let mut line = String::from_str("  ");
        let number = format_usize(i + 1);
        line.append(number.as_str());
        line.append(". ");
        proof {
            assert(decreases_to!(errors@ => errors@[i as int]));
        }
        let text = errors[i].message();
        line.append(text.as_str());
        lines.push(line);
        proof {
            let t = errors@.take(i + 1);
            assert(t.drop_last() =~= errors@.take(i as int));
            assert(t.last() == errors@[i as int]);
            assert(spec_texts(lines@) =~= spec_error_lines(t));
        }
        i = i + 1;
    }
    proof {
        assert(errors@.take(errors@.len() as int) =~= errors@);
    }
    join_strings(&lines, "\n")
}


/// A collection of errors that can be aggregated.
#[derive(Debug)]
pub struct ErrorCollection {
    errors: Vec<XmileError>,
}

impl View for ErrorCollection {
    type V = Seq<XmileError>;

    closed spec fn view(&self) -> Seq<XmileError> {
        self.errors@
    }
}

/// `e` is the single error that stands for the non-empty list `errors`: a `Multiple` error
/// holding all of them, in the order they were collected.
pub open spec fn spec_combined_error(errors: Seq<XmileError>, e: XmileError) -> bool {
    e matches XmileError::Multiple(v) && v@ == errors
}

/// `e` is the error that stands for an empty collection: a validation error reading
/// "Unknown error", with an empty context and no warnings or errors.
pub open spec fn spec_unknown_error(e: XmileError) -> bool {
    e matches XmileError::Validation { message, context, warnings, errors } && message@ == "Unknown error"@
        && context.holds(None, None, None, None) && warnings@.len() == 0 && errors@.len() == 0
}

impl ErrorCollection {
    /// Create a new empty error collection.
    pub fn new() -> (c: Self)
        ensures
            c@ == Seq::<XmileError>::empty(),
    {
        ErrorCollection { errors: Vec::new() }
    }

    /// Add an error to the collection.
    pub fn push(&mut self, error: XmileError)
        ensures
            final(self)@ == old(self)@.push(error),
    {
        self.errors.push(error);
    }

    /// Check if the collection is empty.
    pub fn is_empty(&self) -> (r: bool)
        ensures
            r == (self@.len() == 0),
    {
        self.errors.len() == 0
    }

    /// Get the number of errors in the collection.
    pub fn len(&self) -> (r: usize)
        ensures
            r == self@.len(),
    {
        self.errors.len()
    }

    /// Convert the collection into a single `Multiple` error holding all collected errors in
    /// order; none for an empty collection.
    pub fn into_error(self) -> (r: Option<XmileError>)
        ensures
            self@.len() == 0 <==> r is None,
            r matches Some(e) ==> spec_combined_error(self@, e),
    {
        if self.errors.len() == 0 {
            None
        } else {
            Some(XmileError::Multiple(self.errors))
        }
    }

    /// Get all errors as a slice.
    pub fn errors(&self) -> (r: &[XmileError])
        ensures
            r@ == self@,
    {
        self.errors.as_slice()
    }

    /// Convert the collection into one error, standing in an "Unknown error" for an empty one.
    pub fn into_xmile_error(self) -> (r: XmileError)
        ensures
            self@.len() == 0 ==> spec_unknown_error(r),
            self@.len() > 0 ==> spec_combined_error(self@, r),
    {
        match self.into_error() {
            Some(e) => e,
            None => XmileError::Validation {
                message: String::from_str("Unknown error"),
                context: ErrorContext::new(),
                warnings: Vec::new(),
                errors: Vec::new(),
            },
        }
    }
}

impl Default for ErrorCollection {
    fn default() -> (c: Self)
        ensures
            c@ == Seq::<XmileError>::empty(),
    {
        Self::new()
    }
}

impl From<Vec<XmileError>> for ErrorCollection {
    fn from(errors: Vec<XmileError>) -> (c: Self)
        ensures
            c@ == errors@,
    {
        ErrorCollection { errors }
    }
}

impl vstd::std_specs::convert::FromSpecImpl<Vec<XmileError>> for ErrorCollection {
    open spec fn obeys_from_spec() -> bool {
        true
    }

    closed spec fn from_spec(errors: Vec<XmileError>) -> Self {
        ErrorCollection { errors }
    }
}

impl From<ErrorCollection> for XmileError {
    fn from(collection: ErrorCollection) -> (r: Self)
        ensures
            collection@.len() == 0 ==> spec_unknown_error(r),
            collection@.len() > 0 ==> spec_combined_error(collection@, r),
    {
        collection.into_xmile_error()
    }
}

impl vstd::std_specs::convert::FromSpecImpl<ErrorCollection> for XmileError {
    open spec fn obeys_from_spec() -> bool {
        false
    }

    closed spec fn from_spec(collection: ErrorCollection) -> Self {
        choose|e: XmileError|
            (collection@.len() == 0 ==> spec_unknown_error(e)) && (collection@.len() > 0 ==> spec_combined_error(
                collection@,
                e,
            ))
    }
}

/// Helper trait for converting validation results to XmileError.
pub trait ToXmileError: Sized {
    fn to_xmile_error(self, context: ErrorContext) -> XmileError;
}

/// `e` is the validation error that reports `result` in `context`.
pub open spec fn spec_validation_error(result: ValidationResult, context: ErrorContext, e: XmileError) -> bool {
    e matches XmileError::Validation { message, context: c, warnings, errors } && c == context && match result {
        ValidationResult::Valid(_) => message@ == "Validation passed"@ && warnings@.len() == 0 && errors@.len() == 0,
        ValidationResult::Warnings(_, w) => message@ == "Validation passed with "@ + spec_int_text(w@.len() as int)
            + " warning(s)"@ && warnings@ == w@ && errors@.len() == 0,
        ValidationResult::Invalid(w, errs) => {
            &&& message@ == (if errs@.len() == 1 {
                errs@[0]@
            } else {
                spec_int_text(errs@.len() as int) + " validation errors"@
            })
            &&& warnings@ == w@
            &&& errors@ == errs@
        },
    }
}

impl ToXmileError for ValidationResult {
    fn to_xmile_error(self, context: ErrorContext) -> (r: XmileError)
        ensures
            spec_validation_error(self, context, r),
    {
        match self {
            ValidationResult::Valid(_) => XmileError::Validation {
                message: String::from_str("Validation passed"),
                context,
                warnings: Vec::new(),
                errors: Vec::new(),
            },
            ValidationResult::Warnings(_, warnings) => {
                let mut message = String::from_str("Validation passed with ");
                let n = format_usize(warnings.len());
                message.append(n.as_str());
                message.append(" warning(s)");
                XmileError::Validation { message, context, warnings, errors: Vec::new() }
            },
            ValidationResult::Invalid(warnings, errors) => {
                let error_count = errors.len();
                let message = if error_count == 1 {
                    errors[0].clone()
                } else {
                    let mut m = format_usize(error_count);
                    m.append(" validation errors");
                    m
                };
                XmileError::Validation { message, context, warnings, errors }
            },
        }
    }
}

} // verus!
