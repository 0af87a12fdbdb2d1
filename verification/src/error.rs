//! The errors of the crate and their messages.

use crate::text::{decimal, decimal_string, join};
use vstd::prelude::*;

verus! {

pub type MyResult<T> = Result<T, Error>;

#[derive(Debug, PartialEq, Eq)]
pub enum Error {
    /// `cmus-remote` could not be started.
    CmusNotInstalled,
    /// `cmus-remote` ran and failed. `status` is its exit status as the
    /// operating system words it.
    CmusError { status: String, stderr: String },
    CmusParseError(String),
    CmusUnknownData(String),
    CmusExpectDataArguments(usize, String),
    CmusUnknownStatus(String),
    CouldntParseTimeToNumber(String),
    CmusMissingData(String),
    CmusStatusNoData,
    NoFormat,
    InvalidFormatKeyword(String),
    ProgressBarConfigMinLen(usize, String),
    /// The path of the file, as it is shown to the user, and the parser's
    /// complaint.
    FailedParsingConfig(Option<String>, String),
    NoConfig,
    InvalidArgument(String),
    CommandTakesNoOptions(String),
    InvalidCommandLen(String),
}

/// An [`Error`] with its texts as sequences of characters.
pub enum ErrorView {
    CmusNotInstalled,
    CmusError { status: Seq<char>, stderr: Seq<char> },
    CmusParseError(Seq<char>),
    CmusUnknownData(Seq<char>),
    CmusExpectDataArguments(usize, Seq<char>),
    CmusUnknownStatus(Seq<char>),
    CouldntParseTimeToNumber(Seq<char>),
    CmusMissingData(Seq<char>),
    CmusStatusNoData,
    NoFormat,
    InvalidFormatKeyword(Seq<char>),
    ProgressBarConfigMinLen(usize, Seq<char>),
    FailedParsingConfig(Option<Seq<char>>, Seq<char>),
    NoConfig,
    InvalidArgument(Seq<char>),
    CommandTakesNoOptions(Seq<char>),
    InvalidCommandLen(Seq<char>),
}

impl View for Error {
    type V = ErrorView;

    open spec fn view(&self) -> ErrorView {
        match self {
            Error::CmusNotInstalled => ErrorView::CmusNotInstalled,
            Error::CmusError { status, stderr } => ErrorView::CmusError {
                status: status@,
                stderr: stderr@,
            },
            Error::CmusParseError(msg) => ErrorView::CmusParseError(msg@),
            Error::CmusUnknownData(line) => ErrorView::CmusUnknownData(line@),
            Error::CmusExpectDataArguments(n, line) => ErrorView::CmusExpectDataArguments(
                *n,
                line@,
            ),
            Error::CmusUnknownStatus(status) => ErrorView::CmusUnknownStatus(status@),
            Error::CouldntParseTimeToNumber(time) => ErrorView::CouldntParseTimeToNumber(time@),
            Error::CmusMissingData(name) => ErrorView::CmusMissingData(name@),
            Error::CmusStatusNoData => ErrorView::CmusStatusNoData,
            Error::NoFormat => ErrorView::NoFormat,
            Error::InvalidFormatKeyword(keyword) => ErrorView::InvalidFormatKeyword(keyword@),
            Error::ProgressBarConfigMinLen(n, config) => ErrorView::ProgressBarConfigMinLen(
                *n,
                config@,
            ),
            Error::FailedParsingConfig(Some(path), e) => ErrorView::FailedParsingConfig(
                Some(path@),
                e@,
            ),
            Error::FailedParsingConfig(None, e) => ErrorView::FailedParsingConfig(None, e@),
            Error::NoConfig => ErrorView::NoConfig,
            Error::InvalidArgument(arg) => ErrorView::InvalidArgument(arg@),
            Error::CommandTakesNoOptions(cmd) => ErrorView::CommandTakesNoOptions(cmd@),
            Error::InvalidCommandLen(cmds) => ErrorView::InvalidCommandLen(cmds@),
        }
    }
}

impl ErrorView {
    /// What the error tells the user.
    pub open spec fn message(self) -> Seq<char> {
        match self {
            ErrorView::CmusNotInstalled => "cmus is not installed."@,
            ErrorView::CmusError { status, stderr } => "cmus exited with status code "@ + status
                + "\nstderr: "@ + stderr,
            ErrorView::CmusParseError(msg) => "cmus-remote parsing error: "@ + msg,
            ErrorView::CmusUnknownData(line) => "cmus-remote returned unknown data: "@ + line,
            ErrorView::CmusExpectDataArguments(n, line) => "expected "@ + decimal(n as nat)
                + " arguments for data line from cmus-remote: "@ + line,
            ErrorView::CmusUnknownStatus(status) => "cmus-remote returned unknown status: "@
                + status,
            ErrorView::CouldntParseTimeToNumber(time) =>
                "couldn't parse string to number, expected to be string of seconds: "@ + time,
            ErrorView::CmusMissingData(name) => "missing required data from cmus-remote: "@
                + name,
            ErrorView::CmusStatusNoData =>
                "CmusStatusBuilder needs CmusData, set with `CmusStatusBuilder::data` method"@,
            ErrorView::NoFormat => "No output format given for status line"@,
            ErrorView::InvalidFormatKeyword(keyword) => "Given format keyword '"@ + keyword
                + "' is not a valid keyword"@,
            ErrorView::ProgressBarConfigMinLen(n, config) =>
                "ProgressBar config string must be at least "@ + decimal(n as nat)
                    + " characters long: "@ + config,
            ErrorView::FailedParsingConfig(Some(path), e) =>
                "failed parsing config.toml file at "@ + path + "\n"@ + e,
            ErrorView::FailedParsingConfig(None, e) => "failed parsing config TOML\n"@ + e,
            ErrorView::NoConfig => "no config was given"@,
            ErrorView::InvalidArgument(arg) => "invalid argument: "@ + arg,
            ErrorView::CommandTakesNoOptions(cmd) => "command '"@ + cmd + "' takes no options"@,
            ErrorView::InvalidCommandLen(cmds) =>
                "command 'status' must be the only command, but got: "@ + cmds,
        }
    }

    /// The message as it is printed: between a heading and a farewell.
    pub open spec fn report(self) -> Seq<char> {
        "ERROR:\n"@ + self.message() + "\nExiting."@
    }
}

impl ErrorView {
    /// The error with the path of the configuration file, where it is an
    /// error of parsing a configuration that has none yet.
    pub open spec fn at_path(self, path: Seq<char>) -> ErrorView {
        match self {
            ErrorView::FailedParsingConfig(None, e) => ErrorView::FailedParsingConfig(
                Some(path),
                e,
            ),
            _ => self,
        }
    }
}

impl Error {
    /// The error with the path of the configuration file, where it is an
    /// error of parsing a configuration that has none yet.
    pub fn at_path(self, path: String) -> (e: Error)
        ensures
            e@ == self@.at_path(path@),
    {
        match self {
            Error::FailedParsingConfig(None, e) => Error::FailedParsingConfig(Some(path), e),
            other => other,
        }
    }

    /// What the error tells the user.
    pub fn message(&self) -> (out: String)
        ensures
            out@ == self@.message(),
    {
        match self {
            Error::CmusNotInstalled => String::from_str("cmus is not installed."),
            Error::CmusError { status, stderr } => {
                let out = String::from_str("cmus exited with status code ");
                let out = join(out, status.as_str());
                let out = join(out, "\nstderr: ");
                join(out, stderr.as_str())
            },
            Error::CmusParseError(msg) => join(
                String::from_str("cmus-remote parsing error: "),
                msg.as_str(),
            ),
            Error::CmusUnknownData(line) => join(
                String::from_str("cmus-remote returned unknown data: "),
                line.as_str(),
            ),
            Error::CmusExpectDataArguments(n, line) => {
                let out = String::from_str("expected ");
                let out = join(out, decimal_string(*n).as_str());
                let out = join(out, " arguments for data line from cmus-remote: ");
                join(out, line.as_str())
            },
            Error::CmusUnknownStatus(status) => join(
                String::from_str("cmus-remote returned unknown status: "),
                status.as_str(),
            ),
            Error::CouldntParseTimeToNumber(time) => join(
                String::from_str(
                    "couldn't parse string to number, expected to be string of seconds: ",
                ),
                time.as_str(),
            ),
            Error::CmusMissingData(name) => join(
                String::from_str("missing required data from cmus-remote: "),
                name.as_str(),
            ),
            Error::CmusStatusNoData => String::from_str(
                "CmusStatusBuilder needs CmusData, set with `CmusStatusBuilder::data` method",
            ),
            Error::NoFormat => String::from_str("No output format given for status line"),
            Error::InvalidFormatKeyword(keyword) => {
                let out = String::from_str("Given format keyword '");
                let out = join(out, keyword.as_str());
                join(out, "' is not a valid keyword")
            },
            Error::ProgressBarConfigMinLen(n, config) => {
                let out = String::from_str("ProgressBar config string must be at least ");
                let out = join(out, decimal_string(*n).as_str());
                let out = join(out, " characters long: ");
                join(out, config.as_str())
            },
            Error::FailedParsingConfig(Some(path), e) => {
                let out = String::from_str("failed parsing config.toml file at ");
                let out = join(out, path.as_str());
                let out = join(out, "\n");
                join(out, e.as_str())
            },
            Error::FailedParsingConfig(None, e) => join(
                String::from_str("failed parsing config TOML\n"),
                e.as_str(),
            ),
            Error::NoConfig => String::from_str("no config was given"),
            Error::InvalidArgument(arg) => join(
                String::from_str("invalid argument: "),
                arg.as_str(),
            ),
            Error::CommandTakesNoOptions(cmd) => {
                let out = String::from_str("command '");
                let out = join(out, cmd.as_str());
                join(out, "' takes no options")
            },
            Error::InvalidCommandLen(cmds) => join(
                String::from_str("command 'status' must be the only command, but got: "),
                cmds.as_str(),
            ),
        }
    }

    /// The message as it is printed: between a heading and a farewell.
    pub fn to_string(&self) -> (out: String)
        ensures
            out@ == self@.report(),
    {
        let out = String::from_str("ERROR:\n");
        let out = join(out, self.message().as_str());
        join(out, "\nExiting.")
    }
}

} // verus!
