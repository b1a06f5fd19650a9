//! Startup configuration checks: the connection string handed in from the
//! environment must be present and parsable before the process may serve.

use vstd::prelude::*;
use vstd::string::StringExecFns;
use vstd::string::StrSliceExecFns;

verus! {

/// A fatal condition found before the server starts.
#[derive(Clone, Copy, PartialEq, Eq, Structural, Debug)]
pub enum StartupError {
    /// The connection-string variable is not set.
    MissingConnectionString,
    /// The connection string has no scheme separator.
    InvalidConnectionString,
}

impl StartupError {
    /// The error text printed before the process exits.
    pub open spec fn spec_message(self) -> Seq<char> {
        match self {
            StartupError::MissingConnectionString => "connection string is not set"@,
            StartupError::InvalidConnectionString => "connection string is not parsable"@,
        }
    }

    pub fn message(&self) -> (r: String)
        ensures
            r@ == self.spec_message(),
    {
        match self {
            StartupError::MissingConnectionString => "connection string is not set".to_owned(),
            StartupError::InvalidConnectionString => "connection string is not parsable".to_owned(),
        }
    }
}

/// The scheme separator `://` stands at position `i`.
pub open spec fn spec_is_sep_at(s: Seq<char>, i: int) -> bool {
    s[i] == ':' && s[i + 1] == '/' && s[i + 2] == '/'
}

/// A parsable connection string: a nonempty scheme, the separator, and a
/// nonempty remainder.
pub open spec fn spec_valid_connection_string(s: Seq<char>) -> bool {
    exists|i: int| 1 <= i && i + 3 < s.len() && #[trigger] spec_is_sep_at(s, i)
}

/// Check the connection string handed in from the environment. `None` (the
/// variable is unset) and an unparsable string are startup failures.
pub fn parse_connection_string(value: Option<String>) -> (r: Result<String, StartupError>)
    ensures
        value is None ==> r == Err::<String, StartupError>(StartupError::MissingConnectionString),
        value matches Some(s) ==> (if spec_valid_connection_string(s@) {
            r == Ok::<String, StartupError>(s)
        } else {
            r == Err::<String, StartupError>(StartupError::InvalidConnectionString)
        }),
{
    if value.is_none() {
        return Err(StartupError::MissingConnectionString);
    }
    let s = value.unwrap();
    let n: usize = s.as_str().unicode_len();
    let mut i: usize = 1;
    while i + 3 < n
        invariant
            value == Some(s),
            n == s@.len(),
            1 <= i,
            i == 1 || i + 3 <= n,
            forall|j: int| 1 <= j < i ==> !(#[trigger] spec_is_sep_at(s@, j)),
        decreases n - i,
    {
        if s.as_str().get_char(i) == ':' && s.as_str().get_char(i + 1) == '/' && s.as_str()
            .get_char(i + 2) == '/' {
            proof {
                assert(spec_is_sep_at(s@, i as int));
            }
            return Ok(s);
        }
        i = i + 1;
    }
    Err(StartupError::InvalidConnectionString)
}

} // verus!
