use vstd::prelude::*;
use vstd::string::StrSliceExecFns;

use crate::text::push_str;

verus! {

/// The operating systems whose log locations differ.
#[derive(Debug, Clone, Copy, PartialEq, Eq, Structural)]
pub enum Platform {
    MacOs,
    Linux,
    Other,
}

/// `rel` placed under the directory `dir`: a separator goes between them unless `dir` is
/// empty or already ends with one.
pub open spec fn joined(dir: Seq<char>, rel: Seq<char>) -> Seq<char> {
    if dir.len() == 0 || dir.last() == '/' {
        dir + rel
    } else {
        dir + seq!['/'] + rel
    }
}

/// Where the daemon writes its log: under the home directory (`/tmp` when HOME is unset)
/// on macOS and Linux, and `/tmp/propeller.log` elsewhere.
pub open spec fn log_path_of(home: Option<Seq<char>>, platform: Platform) -> Seq<char> {
    let h = match home {
        Some(h) => h,
        None => "/tmp"@,
    };
    match platform {
        Platform::MacOs => joined(h, "Library/Logs/propeller/propeller.log"@),
        Platform::Linux => joined(h, ".local/share/propeller/propeller.log"@),
        Platform::Other => "/tmp/propeller.log"@,
    }
}

/// `rel` under the directory `dir`; see `joined`.
fn join_path(dir: &str, rel: &str) -> (r: String)
    ensures
        r@ == joined(dir@, rel@),
{
    let mut s = String::from_str(dir);
    let n = dir.unicode_len();
    if n > 0 && dir.get_char(n - 1) != '/' {
        proof {
            reveal_strlit("/");
        }
        push_str(&mut s, "/");
    }
    push_str(&mut s, rel);
    s
}

/// The log file of the daemon, given the value of HOME (absent when unset or not valid
/// text) and the platform; see `log_path_of`.
pub fn platform_log_path(home: Option<String>, platform: Platform) -> (r: String)
    ensures
        r@ == log_path_of(
            match home {
                Some(h) => Some(h@),
                None => None,
            },
            platform,
        ),
{
    let h = match home {
        Some(h) => h,
        None => String::from_str("/tmp"),
    };
    match platform {
        Platform::MacOs => join_path(h.as_str(), "Library/Logs/propeller/propeller.log"),
        Platform::Linux => join_path(h.as_str(), ".local/share/propeller/propeller.log"),
        Platform::Other => String::from_str("/tmp/propeller.log"),
    }
}

} // verus!
