//! The canonical error type of the dispatch core.
//!
//! Errors stay structured inside the library; at the host boundary they are
//! rendered to strings. Two renderings exist, matching the two shapes the
//! boundary uses: a record-like form (variant name and named fields) and a
//! sentence form. Both quote embedded text by surrounding it with `"`,
//! without escaping characters of the text itself.

use vstd::prelude::*;
use vstd::string::StringExecFns;

verus! {

/// An error raised while registering a module or while dispatching a request.
#[derive(Debug, Clone, PartialEq, Eq)]
pub enum Error {
    /// A module is already registered under the given name.
    ModuleAlreadyRegistered { module: String },
    /// A module's transaction handler failed; `err` describes the failure.
    ExecutionError { module: String, err: String },
    /// A module's query handler failed; `err` describes the failure.
    QueryError { module: String, err: String },
    /// The request envelope could not be used, with an optional detail.
    ParseError { msg: Option<String> },
    /// No module is registered under the given name.
    NotFoundError { module: String },
}

/// The given text surrounded by double quotes.
pub open spec fn quoted(s: Seq<char>) -> Seq<char> {
    "\""@ + s + "\""@
}

/// How an optional detail is rendered: `Some("...")` or `None`.
pub open spec fn option_text(m: Option<Seq<char>>) -> Seq<char> {
    match m {
        Some(s) => "Some("@ + quoted(s) + ")"@,
        None => "None"@,
    }
}

/// The view of an optional owned string.
pub open spec fn opt_view(m: Option<String>) -> Option<Seq<char>> {
    match m {
        Some(s) => Some(s@),
        None => None,
    }
}

pub open spec fn already_registered_record(module: Seq<char>) -> Seq<char> {
    "ModuleAlreadyRegistered { module: "@ + quoted(module) + " }"@
}

pub open spec fn execution_error_record(module: Seq<char>, err: Seq<char>) -> Seq<char> {
    "ExecutionError { module: "@ + quoted(module) + ", err: "@ + quoted(err) + " }"@
}

pub open spec fn query_error_record(module: Seq<char>, err: Seq<char>) -> Seq<char> {
    "QueryError { module: "@ + quoted(module) + ", err: "@ + quoted(err) + " }"@
}

pub open spec fn parse_error_record(msg: Option<Seq<char>>) -> Seq<char> {
    "ParseError { msg: "@ + option_text(msg) + " }"@
}

pub open spec fn not_found_record(module: Seq<char>) -> Seq<char> {
    "NotFoundError { module: "@ + quoted(module) + " }"@
}

/// The record-like rendering of an error.
pub open spec fn record_text(e: Error) -> Seq<char> {
    match e {
        Error::ModuleAlreadyRegistered { module } => already_registered_record(module@),
        Error::ExecutionError { module, err } => execution_error_record(module@, err@),
        Error::QueryError { module, err } => query_error_record(module@, err@),
        Error::ParseError { msg } => parse_error_record(opt_view(msg)),
        Error::NotFoundError { module } => not_found_record(module@),
    }
}

pub open spec fn already_registered_sentence(module: Seq<char>) -> Seq<char> {
    "module "@ + quoted(module) + " already registered"@
}

pub open spec fn execution_error_sentence(module: Seq<char>, err: Seq<char>) -> Seq<char> {
    "error executing module "@ + quoted(module) + ": "@ + quoted(err)
}

pub open spec fn query_error_sentence(module: Seq<char>, err: Seq<char>) -> Seq<char> {
    "error querying module "@ + quoted(module) + ": "@ + quoted(err)
}

pub open spec fn parse_error_sentence(msg: Option<Seq<char>>) -> Seq<char> {
    "error parsing request: "@ + option_text(msg)
}

pub open spec fn not_found_sentence(module: Seq<char>) -> Seq<char> {
    "module "@ + quoted(module) + " not found"@
}

/// The sentence rendering of an error.
pub open spec fn sentence_text(e: Error) -> Seq<char> {
    match e {
        Error::ModuleAlreadyRegistered { module } => already_registered_sentence(module@),
        Error::ExecutionError { module, err } => execution_error_sentence(module@, err@),
        Error::QueryError { module, err } => query_error_sentence(module@, err@),
        Error::ParseError { msg } => parse_error_sentence(opt_view(msg)),
        Error::NotFoundError { module } => not_found_sentence(module@),
    }
}

/// Appends `s` surrounded by double quotes.
fn push_quoted(out: &mut String, s: &str)
    ensures
        final(out)@ == old(out)@ + quoted(s@),
{
    out.append("\"");
    out.append(s);
    out.append("\"");
    proof {
        assert(out@ =~= old(out)@ + quoted(s@));
    }
}

/// Appends an optional detail as `Some("...")` or `None`.
fn push_option(out: &mut String, m: &Option<String>)
    ensures
        final(out)@ == old(out)@ + option_text(opt_view(*m)),
{
    match m {
        Some(s) => {
            out.append("Some(");
            push_quoted(out, s.as_str());
            out.append(")");
            proof {
                assert(out@ =~= old(out)@ + option_text(opt_view(*m)));
            }
        },
        None => {
            out.append("None");
        },
    }
}

impl Error {
    /// Renders the error in the record-like form, for example
    /// `NotFoundError { module: "bank" }`.
    pub fn to_record_string(&self) -> (r: String)
        ensures
            r@ == record_text(*self),
    {
        let mut out = String::new();
        match self {
            Error::ModuleAlreadyRegistered { module } => {
                out.append("ModuleAlreadyRegistered { module: ");
                push_quoted(&mut out, module.as_str());
                out.append(" }");
            },
            Error::ExecutionError { module, err } => {
                out.append("ExecutionError { module: ");
                push_quoted(&mut out, module.as_str());
                out.append(", err: ");
                push_quoted(&mut out, err.as_str());
                out.append(" }");
            },
            Error::QueryError { module, err } => {
                out.append("QueryError { module: ");
                push_quoted(&mut out, module.as_str());
                out.append(", err: ");
                push_quoted(&mut out, err.as_str());
                out.append(" }");
            },
            Error::ParseError { msg } => {
                out.append("ParseError { msg: ");
                push_option(&mut out, msg);
                out.append(" }");
            },
            Error::NotFoundError { module } => {
                out.append("NotFoundError { module: ");
                push_quoted(&mut out, module.as_str());
                out.append(" }");
            },
        }
        proof {
            assert(out@ =~= record_text(*self));
        }
        out
    }

    /// Renders the error as a sentence, for example `module "bank" not found`.
    pub fn to_sentence_string(&self) -> (r: String)
        ensures
            r@ == sentence_text(*self),
    {
        let mut out = String::new();
        match self {
            Error::ModuleAlreadyRegistered { module } => {
                out.append("module ");
                push_quoted(&mut out, module.as_str());
                out.append(" already registered");
            },
            Error::ExecutionError { module, err } => {
                out.append("error executing module ");
                push_quoted(&mut out, module.as_str());
                out.append(": ");
                push_quoted(&mut out, err.as_str());
            },
            Error::QueryError { module, err } => {
                out.append("error querying module ");
                push_quoted(&mut out, module.as_str());
                out.append(": ");
                push_quoted(&mut out, err.as_str());
            },
            Error::ParseError { msg } => {
                out.append("error parsing request: ");
                push_option(&mut out, msg);
            },
            Error::NotFoundError { module } => {
                out.append("module ");
                push_quoted(&mut out, module.as_str());
                out.append(" not found");
            },
        }
        proof {
            assert(out@ =~= sentence_text(*self));
        }
        out
    }
}

} // verus!
