use vstd::prelude::*;

verus! {

/// The command line: an optional name to snipe and an optional Unix time
/// (seconds) at which it drops.
pub struct Args {
    pub name: Option<String>,
    pub timestamp: Option<i64>,
}

/// Why a command line is refused.
#[derive(Clone, Copy, Debug, PartialEq, Eq, Structural)]
pub enum ArgsError {
    /// A timestamp was given without a name.
    TimestampRequiresName,
}

impl Args {
    /// The command line with its values, where they go together: a
    /// timestamp is only taken together with a name.
    pub fn new(name: Option<String>, timestamp: Option<i64>) -> (r: Result<Args, ArgsError>)
        ensures
            timestamp is Some && name is None ==> r == Err::<Args, ArgsError>(ArgsError::TimestampRequiresName),
            !(timestamp is Some && name is None) ==> (r matches Ok(a) && a.name == name && a.timestamp == timestamp),
    {
        if timestamp.is_some() && name.is_none() {
            return Err(ArgsError::TimestampRequiresName);
        }
        Ok(Args { name, timestamp })
    }
}

} // verus!
