//! Endpoints of the Burn Central service and the URL computations behind the
//! HTTP and websocket clients.
//!
//! A URL is modelled by what this client reads and writes of one — scheme,
//! authority and path — with relative references resolved the way a browser
//! or URL library merges them: the reference replaces everything after the
//! base path's last slash.

use vstd::prelude::*;
use vstd::string::*;
use vstd::utf8::is_ascii_chars;

verus! {

/// The decimal numeral of a digit.
pub open spec fn decimal_digit(d: int) -> char {
    if d == 0 {
        '0'
    } else if d == 1 {
        '1'
    } else if d == 2 {
        '2'
    } else if d == 3 {
        '3'
    } else if d == 4 {
        '4'
    } else if d == 5 {
        '5'
    } else if d == 6 {
        '6'
    } else if d == 7 {
        '7'
    } else if d == 8 {
        '8'
    } else {
        '9'
    }
}

/// The decimal numerals of `n`, most significant first, without leading
/// zeroes (a single `'0'` for zero).
pub open spec fn decimal_chars(n: nat) -> Seq<char>
    decreases n,
{
    if n < 10 {
        seq![decimal_digit(n as int)]
    } else {
        decimal_chars(n / 10) + seq![decimal_digit((n % 10) as int)]
    }
}

/// The decimal numerals of `n`, a leading `'-'` when it is negative.
pub open spec fn int_decimal(n: int) -> Seq<char> {
    if n < 0 {
        seq!['-'] + decimal_chars((-n) as nat)
    } else {
        decimal_chars(n as nat)
    }
}

/// Decimal numerals are ASCII.
pub proof fn lemma_decimal_chars_ascii(n: nat)
    ensures
        is_ascii_chars(decimal_chars(n)),
    decreases n,
{
    if n >= 10 {
        lemma_decimal_chars_ascii(n / 10);
    }
}

/// The one-numeral literal for a decimal digit.
fn digit_literal(d: u64) -> (s: &'static str)
    requires
        d < 10,
    ensures
        s@ == seq![decimal_digit(d as int)],
{
    if d == 0 {
        proof {
            reveal_strlit("0");
            assert("0"@ =~= seq!['0']);
        }
        "0"
    } else if d == 1 {
        proof {
            reveal_strlit("1");
            assert("1"@ =~= seq!['1']);
        }
        "1"
    } else if d == 2 {
        proof {
            reveal_strlit("2");
            assert("2"@ =~= seq!['2']);
        }
        "2"
    } else if d == 3 {
        proof {
            reveal_strlit("3");
            assert("3"@ =~= seq!['3']);
        }
        "3"
    } else if d == 4 {
        proof {
            reveal_strlit("4");
            assert("4"@ =~= seq!['4']);
        }
        "4"
    } else if d == 5 {
        proof {
            reveal_strlit("5");
            assert("5"@ =~= seq!['5']);
        }
        "5"
    } else if d == 6 {
        proof {
            reveal_strlit("6");
            assert("6"@ =~= seq!['6']);
        }
        "6"
    } else if d == 7 {
        proof {
            reveal_strlit("7");
            assert("7"@ =~= seq!['7']);
        }
        "7"
    } else if d == 8 {
        proof {
            reveal_strlit("8");
            assert("8"@ =~= seq!['8']);
        }
        "8"
    } else {
        proof {
            reveal_strlit("9");
            assert("9"@ =~= seq!['9']);
        }
        "9"
    }
}

/// Append the decimal rendering of `n` to `out`.
pub fn append_decimal(out: &mut String, n: u64)
    ensures
        final(out)@ == old(out)@ + decimal_chars(n as nat),
    decreases n,
{
    if n >= 10 {
        append_decimal(out, n / 10);
    }
    let ds = digit_literal(n % 10);
    out.append(ds);
    proof {
        assert(final(out)@ =~= old(out)@ + decimal_chars(n as nat));
    }
}

/// Append the decimal rendering of `n` to `out`, a leading minus sign when it
/// is negative.
pub fn append_int_decimal(out: &mut String, n: i64)
    ensures
        final(out)@ == old(out)@ + int_decimal(n as int),
{
    if n < 0 {
        proof {
            reveal_strlit("-");
            assert("-"@ =~= seq!['-']);
        }
        out.append("-");
        let m: u64 = (-(n as i128)) as u64;
        append_decimal(out, m);
        proof {
            assert(final(out)@ =~= old(out)@ + int_decimal(n as int));
        }
    } else {
        append_decimal(out, n as u64);
    }
}

/// Index of the last `'/'` in `s`, or a negative value when there is none.
pub open spec fn last_slash_index(s: Seq<char>) -> int
    decreases s.len(),
{
    if s.len() == 0 {
        -1
    } else if s[s.len() - 1] == '/' {
        s.len() - 1
    } else {
        last_slash_index(s.drop_last())
    }
}

/// A position holding `'/'` with no later one is the last slash.
proof fn lemma_last_slash_at(s: Seq<char>, k: int)
    requires
        0 <= k < s.len(),
        s[k] == '/',
        forall|j: int| k < j < s.len() ==> s[j] != '/',
    ensures
        last_slash_index(s) == k,
    decreases s.len(),
{
    if k < s.len() - 1 {
        lemma_last_slash_at(s.drop_last(), k);
    }
}

/// Resolving a relative reference against a base path: the reference replaces
/// everything after the base's last slash.
pub open spec fn merged_path(base: Seq<char>, rel: Seq<char>) -> Seq<char> {
    base.subrange(0, last_slash_index(base) + 1) + rel
}

/// The `v{version}/` path segment under which the service's endpoints live.
pub open spec fn versioned_segment(version: nat) -> Seq<char> {
    "v"@ + decimal_chars(version) + "/"@
}

/// A base path joined with a versioned segment and then with a relative
/// endpoint path, each by `merged_path`.
pub open spec fn versioned_path(base: Seq<char>, version: nat, rel: Seq<char>) -> Seq<char> {
    merged_path(merged_path(base, versioned_segment(version)), rel)
}

/// What this client reads and writes of a URL: its scheme, its authority
/// (host, and port when one is named), and its path.
#[derive(Debug, Clone)]
pub struct ApiUrl {
    /// The scheme, without the `://` separator.
    pub scheme: String,
    /// The authority: host, and port when one is named.
    pub authority: String,
    /// The path, always beginning with `'/'`.
    pub path: String,
}

/// The websocket counterpart of an HTTP scheme: `wss` for `https`, `ws` for
/// anything else.
pub open spec fn websocket_scheme(scheme: Seq<char>) -> Seq<char> {
    if scheme == "https"@ {
        "wss"@
    } else {
        "ws"@
    }
}

impl ApiUrl {
    /// Well-formed: ASCII throughout and a path that begins at the root, so
    /// that references can be resolved against it.
    pub open spec fn wf(&self) -> bool {
        &&& self.scheme.is_ascii()
        &&& self.authority.is_ascii()
        &&& self.path.is_ascii()
        &&& self.path@.len() > 0
        &&& self.path@[0] == '/'
    }

    /// Resolve a relative reference against this URL: scheme and authority
    /// are kept and the reference replaces everything after the path's last
    /// slash.
    pub fn resolve(&self, rel: &str) -> (u: ApiUrl)
        requires
            self.wf(),
        ensures
            u.scheme == self.scheme,
            u.authority == self.authority,
            u.path@ == merged_path(self.path@, rel@),
            rel@.len() == 0 || rel@[0] != '/' ==> u.path@[0] == '/',
            is_ascii_chars(rel@) ==> u.wf(),
    {
        let path = self.path.as_str();
        let len = path.unicode_len();
        let mut i: usize = len;
        while i > 0
            invariant
                i <= len,
                path@ == self.path@,
                len == self.path@.len(),
                self.wf(),
                forall|j: int| i <= j < len ==> self.path@[j] != '/',
            ensures
                0 < i <= len,
                self.path@[i - 1] == '/',
                forall|j: int| i <= j < len ==> self.path@[j] != '/',
            decreases i,
        {
            if path.get_char(i - 1) == '/' {
                break ;
            }
            i = i - 1;
        }
        proof {
            lemma_last_slash_at(self.path@, i - 1);
        }
        let prefix = path.substring_ascii(0, i);
        let mut joined = String::new();
        joined.append(prefix);
        joined.append(rel);
        let u = ApiUrl {
            scheme: self.scheme.clone(),
            authority: self.authority.clone(),
            path: joined,
        };
        proof {
            assert(u.path@ =~= merged_path(self.path@, rel@));
        }
        u
    }

    /// Resolve an endpoint path under the service's versioned API root.
    pub fn join_versioned(&self, path: &str, version: u8) -> (u: ApiUrl)
        requires
            self.wf(),
        ensures
            u.scheme == self.scheme,
            u.authority == self.authority,
            u.path@ == versioned_path(self.path@, version as nat, path@),
            is_ascii_chars(path@) ==> u.wf(),
    {
        let mut seg = String::new();
        proof {
            reveal_strlit("v");
            reveal_strlit("/");
        }
        seg.append("v");
        append_decimal(&mut seg, version as u64);
        seg.append("/");
        proof {
            assert(seg@ =~= versioned_segment(version as nat));
            lemma_decimal_chars_ascii(version as nat);
            assert(is_ascii_chars(seg@));
        }
        let under_version = self.resolve(seg.as_str());
        under_version.resolve(path)
    }

    /// Resolve an endpoint path under the current API version.
    pub fn join(&self, path: &str) -> (u: ApiUrl)
        requires
            self.wf(),
        ensures
            u.scheme == self.scheme,
            u.authority == self.authority,
            u.path@ == versioned_path(self.path@, 1, path@),
            is_ascii_chars(path@) ==> u.wf(),
    {
        self.join_versioned(path, 1)
    }

    /// The same URL under the websocket counterpart of its scheme: `wss` for
    /// `https`, `ws` for anything else.
    pub fn to_websocket(&self) -> (u: ApiUrl)
        ensures
            u.scheme@ == websocket_scheme(self.scheme@),
            u.authority == self.authority,
            u.path == self.path,
    {
        let https: String = "https".to_owned();
        let scheme: String = if self.scheme == https {
            "wss".to_owned()
        } else {
            "ws".to_owned()
        };
        ApiUrl { scheme, authority: self.authority.clone(), path: self.path.clone() }
    }

    /// The URL as one string: `scheme://authority path`.
    pub fn to_url_string(&self) -> (r: String)
        ensures
            r@ == self.scheme@ + "://"@ + self.authority@ + self.path@,
    {
        let mut r = self.scheme.clone();
        r.append("://");
        r.append(self.authority.as_str());
        r.append(self.path.as_str());
        r
    }
}

/// The environment a client talks to.
#[derive(Debug, Clone)]
pub enum Env {
    /// The production service.
    Production,
    /// A numbered staging service.
    Staging(u8),
    /// A service running locally.
    Development,
}

impl Env {
    /// The base URL of the environment's API.
    pub fn get_url(&self) -> (u: ApiUrl)
        ensures
            u.wf(),
            match *self {
                Env::Production => u.scheme@ == "https"@ && u.authority@ == "central.burn.dev"@
                    && u.path@ == "/api"@,
                Env::Staging(version) => u.scheme@ == "https"@ && u.authority@ == "s"@
                    + decimal_chars(version as nat) + "-central.burn.dev"@ && u.path@ == "/api"@,
                Env::Development => u.scheme@ == "http"@ && u.authority@ == "localhost:9001"@
                    && u.path@ == "/"@,
            },
    {
        match self {
            Env::Production => {
                proof {
                    reveal_strlit("https");
                    reveal_strlit("central.burn.dev");
                    reveal_strlit("/api");
                }
                let u = ApiUrl {
                    scheme: "https".to_owned(),
                    authority: "central.burn.dev".to_owned(),
                    path: "/api".to_owned(),
                };
                assert(u.wf());
                u
            },
            Env::Staging(version) => {
                proof {
                    reveal_strlit("https");
                    reveal_strlit("s");
                    reveal_strlit("-central.burn.dev");
                    reveal_strlit("/api");
                }
                let mut authority: String = "s".to_owned();
                append_decimal(&mut authority, *version as u64);
                authority.append("-central.burn.dev");
                let u = ApiUrl { scheme: "https".to_owned(), authority, path: "/api".to_owned() };
                proof {
                    lemma_decimal_chars_ascii(*version as nat);
                    assert(u.authority@ =~= "s"@ + decimal_chars(*version as nat)
                        + "-central.burn.dev"@);
                    assert(u.wf());
                }
                u
            },
            Env::Development => {
                proof {
                    reveal_strlit("http");
                    reveal_strlit("localhost:9001");
                    reveal_strlit("/");
                }
                let u = ApiUrl {
                    scheme: "http".to_owned(),
                    authority: "localhost:9001".to_owned(),
                    path: "/".to_owned(),
                };
                assert(u.wf());
                u
            },
        }
    }
}

/// The endpoint path of an experiment's realtime stream, relative to the
/// versioned API root.
pub open spec fn experiment_ws_path(owner: Seq<char>, project: Seq<char>, exp_num: int) -> Seq<
    char,
> {
    "projects/"@ + owner + "/"@ + project + "/experiments/"@ + int_decimal(exp_num) + "/ws"@
}

/// The websocket URL of an experiment's realtime stream: the experiment's
/// endpoint under the API base, with the scheme swapped to its websocket
/// counterpart (`wss` when the base is `https`, `ws` otherwise).
pub fn format_websocket_url(
    base: &ApiUrl,
    owner_name: &str,
    project_name: &str,
    exp_num: i32,
) -> (r: String)
    requires
        base.wf(),
    ensures
        r@ == websocket_scheme(base.scheme@) + "://"@ + base.authority@ + versioned_path(
            base.path@,
            1,
            experiment_ws_path(owner_name@, project_name@, exp_num as int),
        ),
{
    proof {
        reveal_strlit("projects/");
        reveal_strlit("/");
        reveal_strlit("/experiments/");
        reveal_strlit("/ws");
    }
    let mut rel: String = "projects/".to_owned();
    rel.append(owner_name);
    rel.append("/");
    rel.append(project_name);
    rel.append("/experiments/");
    append_int_decimal(&mut rel, exp_num as i64);
    rel.append("/ws");
    proof {
        assert(rel@ =~= experiment_ws_path(owner_name@, project_name@, exp_num as int));
    }
    let joined = base.join(rel.as_str());
    let ws = joined.to_websocket();
    let r = ws.to_url_string();
    proof {
        assert(r@ =~= websocket_scheme(base.scheme@) + "://"@ + base.authority@ + versioned_path(
            base.path@,
            1,
            experiment_ws_path(owner_name@, project_name@, exp_num as int),
        ));
    }
    r
}

} // verus!
