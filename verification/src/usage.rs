//! What a run needs before it may ask the service anything: a location on
//! the command line and a key, from the key file or else from the key
//! variable of the process.

use crate::link::{after_program_name, joined, arg_texts};
use crate::weather_fetcher::{FetcherState, WeatherFetcher};
use vstd::prelude::*;
use vstd::string::*;

verus! {

/// Why a run ends before it has begun.
#[derive(Debug, Clone, Copy, PartialEq, Eq, Structural)]
pub enum UsageError {
    /// The command line names no location.
    NoLocation,
    /// Neither the key file nor the key variable holds a key.
    NoKey,
}

impl UsageError {
    /// The exit code of the process for this error.
    pub open spec fn code(self) -> i32 {
        match self {
            UsageError::NoLocation => 0,
            UsageError::NoKey => 1,
        }
    }

    /// The text of the message for this error.
    pub open spec fn text(self) -> Seq<char> {
        match self {
            UsageError::NoLocation => "No location entered"@,
            UsageError::NoKey => "Key not found"@,
        }
    }

    /// The exit code of the process for this error.
    pub fn exit_code(&self) -> (c: i32)
        ensures
            c == self.code(),
    {
        match self {
            UsageError::NoLocation => 0,
            UsageError::NoKey => 1,
        }
    }

    /// A short message for the user.
    pub fn message(&self) -> (s: String)
        ensures
            s@ == self.text(),
    {
        match self {
            UsageError::NoLocation => String::from_str("No location entered"),
            UsageError::NoKey => String::from_str("Key not found"),
        }
    }
}

/// The key to use: what the key file holds if there is one, else what the
/// key variable holds.
pub open spec fn chosen_key(from_file: Option<String>, from_env: Option<String>) -> Option<String> {
    if from_file is Some {
        from_file
    } else {
        from_env
    }
}

/// What a run starts with, given the command line and the two places where
/// a key may be found. A missing location is reported before a missing key.
pub open spec fn started(
    args: Seq<String>,
    from_file: Option<String>,
    from_env: Option<String>,
) -> Result<FetcherState, UsageError> {
    if args.len() < 2 {
        Err(UsageError::NoLocation)
    } else if chosen_key(from_file, from_env) is None {
        Err(UsageError::NoKey)
    } else {
        Ok(
            FetcherState {
                location: joined(after_program_name(arg_texts(args))),
                key: chosen_key(from_file, from_env)->Some_0@,
                report: None,
            },
        )
    }
}

/// Checks that the command line names a location.
pub fn check_location(args: &Vec<String>) -> (r: Result<(), UsageError>)
    ensures
        args@.len() < 2 ==> r == Err::<(), UsageError>(UsageError::NoLocation),
        args@.len() >= 2 ==> r is Ok,
{
    if args.len() < 2 {
        Err(UsageError::NoLocation)
    } else {
        Ok(())
    }
}

/// Picks the key: the key file's content before the key variable's.
pub fn choose_key(from_file: Option<String>, from_env: Option<String>) -> (r: Result<
    String,
    UsageError,
>)
    ensures
        match chosen_key(from_file, from_env) {
            Some(key) => r == Ok::<String, UsageError>(key),
            None => r == Err::<String, UsageError>(UsageError::NoKey),
        },
{
    match from_file {
        Some(key) => Ok(key),
        None => match from_env {
            Some(key) => Ok(key),
            None => Err(UsageError::NoKey),
        },
    }
}

/// Sets a client up for a run, or says why the run cannot begin.
pub fn start(args: Vec<String>, from_file: Option<String>, from_env: Option<String>) -> (r: Result<
    WeatherFetcher,
    UsageError,
>)
    ensures
        match started(args@, from_file, from_env) {
            Ok(state) => r is Ok && r->Ok_0@ == state,
            Err(e) => r is Err && r->Err_0 == e,
        },
{
    match check_location(&args) {
        Err(e) => Err(e),
        Ok(_) => match choose_key(from_file, from_env) {
            Err(e) => Err(e),
            Ok(key) => {
                let mut fetcher = WeatherFetcher::new();
                fetcher.set_location_vec(args);
                fetcher.set_key(key.as_str());
                Ok(fetcher)
            },
        },
    }
}

/// A run without a location and a run without a key end with different
/// exit codes.
pub proof fn lemma_exit_codes_differ()
    ensures
        UsageError::NoLocation.code() != UsageError::NoKey.code(),
{
}

/// A command line without a location starts no client, whatever keys there
/// are; with a location but no key in either place none is started either.
pub proof fn lemma_no_client_without_location_or_key(
    args: Seq<String>,
    from_file: Option<String>,
    from_env: Option<String>,
)
    ensures
        args.len() < 2 ==> started(args, from_file, from_env) == Err::<FetcherState, UsageError>(
            UsageError::NoLocation,
        ),
        args.len() >= 2 && from_file is None && from_env is None ==> started(
            args,
            from_file,
            from_env,
        ) == Err::<FetcherState, UsageError>(UsageError::NoKey),
{
}

} // verus!
