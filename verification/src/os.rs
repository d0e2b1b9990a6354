//! Operating-system queries: working directory, environment variables,
//! executable path.  On this platform the environment is empty and immutable,
//! and every filesystem-dependent query fails with `Unsupported`.

use vstd::prelude::*;
use vstd::string::StringExecFns;
use crate::error::{unsupported, ErrorKind, IoError};
use crate::handle::NoHandle;

verus! {

/// The error number visible to portable code.  This backend never surfaces a
/// native error number through this path, so the answer is always the
/// "no error" value.
pub fn errno() -> (r: i32)
    ensures
        r == 0,
{
    0
}

/// The human-readable rendering of an error number.  With `errno` pinned to
/// zero, the only rendering ever requested is the success message.
pub fn error_string(_errno: i32) -> (s: String)
    ensures
        s@ == "operation successful"@,
{
    String::from_str("operation successful")
}

pub fn getcwd() -> (r: Result<String, IoError>)
    ensures
        r is Err && r->Err_0.is_unsupported(),
{
    unsupported()
}

pub fn chdir(_p: &str) -> (r: Result<(), IoError>)
    ensures
        r is Err && r->Err_0.is_unsupported(),
{
    unsupported()
}

pub fn current_exe() -> (r: Result<String, IoError>)
    ensures
        r is Err && r->Err_0.is_unsupported(),
{
    unsupported()
}

/// A walk over the entries of a search-path variable.  On this platform none
/// can be produced.
#[derive(Debug)]
pub struct SplitPaths {
    #[allow(dead_code)]
    token: NoHandle,
}

impl SplitPaths {
    /// The next path entry; stands in for the iterator the functional
    /// backends expose.
    pub fn next_path(&mut self) -> (r: Option<String>)
        ensures
            r is None,
            *final(self) == *old(self),
    {
        None
    }
}

/// Joining search paths is not supported on this platform.
#[derive(Debug)]
pub struct JoinPathsError {}

impl JoinPathsError {
    pub fn message(&self) -> (s: &'static str)
        ensures
            s@ == "not supported on this platform yet"@,
    {
        "not supported on this platform yet"
    }
}

pub fn join_paths(_paths: &Vec<String>) -> (r: Result<String, JoinPathsError>)
    ensures
        r is Err,
{
    Err(JoinPathsError {})
}

/// A walk over the process environment.  On this platform none can be
/// produced.
#[derive(Debug)]
pub struct Env {
    #[allow(dead_code)]
    token: NoHandle,
}

impl Env {
    /// The next environment entry; stands in for the iterator the functional
    /// backends expose.
    pub fn next_var(&mut self) -> (r: Option<(String, String)>)
        ensures
            r is None,
            *final(self) == *old(self),
    {
        None
    }
}

/// The environment is empty: no variable is ever set.
pub fn getenv(_k: &str) -> (r: Option<String>)
    ensures
        r is None,
{
    None
}

pub fn setenv(_k: &str, _v: &str) -> (r: Result<(), IoError>)
    ensures
        r matches Err(e) && e.kind == ErrorKind::Unsupported && e.message@
            == "cannot set env vars on this platform"@,
{
    Err(IoError::new(ErrorKind::Unsupported, "cannot set env vars on this platform"))
}

pub fn unsetenv(_k: &str) -> (r: Result<(), IoError>)
    ensures
        r matches Err(e) && e.kind == ErrorKind::Unsupported && e.message@
            == "cannot unset env vars on this platform"@,
{
    Err(IoError::new(ErrorKind::Unsupported, "cannot unset env vars on this platform"))
}

pub fn home_dir() -> (r: Option<String>)
    ensures
        r is None,
{
    None
}

} // verus!
