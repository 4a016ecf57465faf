use vstd::prelude::*;

verus! {

/// The socket of the loop daemon unless PROPELLER_SOCK names another.
pub const DEFAULT_SOCKET: &'static str = "/tmp/propeller.sock";

/// The socket of the clock daemon unless PROPELLER_CLOCK_SOCK names another.
pub const DEFAULT_CLOCK_SOCKET: &'static str = "/tmp/propeller-clock.sock";

/// The socket path: the value of the environment variable when it is set (and valid
/// text), else the default.
pub fn resolve(env_value: Option<String>, default: &str) -> (r: String)
    ensures
        r@ == match env_value {
            Some(v) => v@,
            None => default@,
        },
{
    match env_value {
        Some(v) => v,
        None => String::from_str(default),
    }
}

} // verus!
