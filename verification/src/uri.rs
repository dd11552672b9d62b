//! The launch URI grammar.
//!
//! A launch request arrives as one URI of the form
//! `pekora-player:1+launchmode:<m>+clientversion:<v>+gameinfo:<g>+placelauncherurl:<u>`
//! where each field is a non-empty run of characters other than `+`; anything
//! after the last field, if present, must begin with `+` and is ignored. The
//! parser recognises exactly this shape.

use vstd::prelude::*;
use vstd::string::StringExecFns;
use vstd::string::StrSliceExecFns;

verus! {

/// A field value: non-empty, with no `+` in it.
pub open spec fn token(s: Seq<char>) -> bool {
    s.len() > 0 && (forall|i: int| 0 <= i < s.len() ==> s[i] != '+')
}

/// The sequence `s` stands in `u` at position `pos`.
pub open spec fn seg_at(u: Seq<char>, pos: int, s: Seq<char>) -> bool {
    &&& 0 <= pos
    &&& pos + s.len() <= u.len()
    &&& u.subrange(pos, pos + s.len()) == s
}

pub open spec fn lit_head() -> Seq<char> {
    "pekora-player:1+launchmode:"@
}

pub open spec fn lit_client_version() -> Seq<char> {
    "+clientversion:"@
}

pub open spec fn lit_game_info() -> Seq<char> {
    "+gameinfo:"@
}

pub open spec fn lit_place_launcher() -> Seq<char> {
    "+placelauncherurl:"@
}

/// The URI `u` parses into the four fields: the fixed keys and the fields
/// stand back to back from the start, and whatever follows the last field is
/// empty or begins with `+`.
pub open spec fn launch_uri_parses_to(
    u: Seq<char>,
    t1: Seq<char>,
    t2: Seq<char>,
    t3: Seq<char>,
    t4: Seq<char>,
) -> bool {
    let p1 = lit_head().len() as int;
    let p2 = p1 + t1.len();
    let p3 = p2 + lit_client_version().len();
    let p4 = p3 + t2.len();
    let p5 = p4 + lit_game_info().len();
    let p6 = p5 + t3.len();
    let p7 = p6 + lit_place_launcher().len();
    let p8 = p7 + t4.len();
    &&& token(t1)
    &&& token(t2)
    &&& token(t3)
    &&& token(t4)
    &&& seg_at(u, 0, lit_head())
    &&& seg_at(u, p1, t1)
    &&& seg_at(u, p2, lit_client_version())
    &&& seg_at(u, p3, t2)
    &&& seg_at(u, p4, lit_game_info())
    &&& seg_at(u, p5, t3)
    &&& seg_at(u, p6, lit_place_launcher())
    &&& seg_at(u, p7, t4)
    &&& (p8 == u.len() || u[p8] == '+')
}

/// The four fields of a launch request.
pub struct LaunchArgs {
    pub launch_mode: String,
    pub client_version: String,
    pub game_info: String,
    pub place_launcher_url: String,
}

/// The URI does not have the launch shape.
#[derive(Clone, Copy, Debug, PartialEq, Eq, Structural)]
pub struct UriParseError;

proof fn lemma_seg_index(u: Seq<char>, pos: int, s: Seq<char>, i: int)
    requires
        seg_at(u, pos, s),
        0 <= i < s.len(),
    ensures
        u[pos + i] == s[i],
{
    assert(u.subrange(pos, pos + s.len())[i] == s[i]);
}

/// The first `+` at or after the start of a field that is followed by a `+`
/// (or by the end) stands exactly at the field's end.
proof fn lemma_token_scan_agrees(u: Seq<char>, q: int, t: Seq<char>, j: int)
    requires
        token(t),
        seg_at(u, q, t),
        q + t.len() == u.len() || u[q + t.len()] == '+',
        q <= j <= u.len(),
        forall|k: int| q <= k < j ==> u[k] != '+',
        j < u.len() ==> u[j] == '+',
    ensures
        j == q + t.len(),
{
    if j < q + t.len() {
        lemma_seg_index(u, q, t, j - q);
    }
}

/// Whether `lit` stands in `s` at position `pos`.
fn match_at(s: &str, pos: usize, lit: &str) -> (r: bool)
    ensures
        r == seg_at(s@, pos as int, lit@),
{
    let n = s.unicode_len();
    let m = lit.unicode_len();
    if pos > n || m > n - pos {
        return false;
    }
    let mut i: usize = 0;
    while i < m
        invariant
            n == s@.len(),
            m == lit@.len(),
            pos + m <= n,
            i <= m,
            forall|j: int| 0 <= j < i ==> s@[pos + j] == lit@[j],
        decreases m - i,
    {
        if s.get_char(pos + i) != lit.get_char(i) {
            proof {
                if seg_at(s@, pos as int, lit@) {
                    lemma_seg_index(s@, pos as int, lit@, i as int);
                }
            }
            return false;
        }
        i += 1;
    }
    proof {
        assert(s@.subrange(pos as int, pos + lit@.len()) =~= lit@);
    }
    true
}

/// The end of the field that starts at `pos`: the index of the first `+` at
/// or after `pos`, or the end of the string.
fn scan_field(s: &str, pos: usize) -> (j: usize)
    requires
        pos <= s@.len(),
    ensures
        pos <= j <= s@.len(),
        forall|k: int| pos <= k < j ==> s@[k] != '+',
        j < s@.len() ==> s@[j as int] == '+',
{
    let n = s.unicode_len();
    let mut j: usize = pos;
    while j < n && s.get_char(j) != '+'
        invariant
            pos <= j <= n,
            n == s@.len(),
            forall|k: int| pos <= k < j ==> s@[k] != '+',
        decreases n - j,
    {
        j += 1;
    }
    j
}

/// Parse a launch URI into its four fields. Succeeds exactly on URIs of the
/// launch shape and hands back the fields it names.
pub fn parse_launch_uri(uri: &str) -> (r: Result<LaunchArgs, UriParseError>)
    ensures
        r matches Ok(a) ==> launch_uri_parses_to(
            uri@,
            a.launch_mode@,
            a.client_version@,
            a.game_info@,
            a.place_launcher_url@,
        ),
        r is Err ==> forall|t1: Seq<char>, t2: Seq<char>, t3: Seq<char>, t4: Seq<char>|
            !#[trigger] launch_uri_parses_to(uri@, t1, t2, t3, t4),
{
    let lit0: &str = "pekora-player:1+launchmode:";
    let lit1: &str = "+clientversion:";
    let lit2: &str = "+gameinfo:";
    let lit3: &str = "+placelauncherurl:";
    let n = uri.unicode_len();
    if !match_at(uri, 0, lit0) {
        proof {
            assert forall|t1: Seq<char>, t2: Seq<char>, t3: Seq<char>, t4: Seq<char>|
                !#[trigger] launch_uri_parses_to(uri@, t1, t2, t3, t4) by {
                if launch_uri_parses_to(uri@, t1, t2, t3, t4) {
                    assert(seg_at(uri@, 0, lit_head()));
                }
            }
        }
        return Err(UriParseError);
    }
    let k0 = lit0.unicode_len();
    let j1 = scan_field(uri, k0);
    if j1 == k0 {
        proof {
            assert forall|t1: Seq<char>, t2: Seq<char>, t3: Seq<char>, t4: Seq<char>|
                !#[trigger] launch_uri_parses_to(uri@, t1, t2, t3, t4) by {
                if launch_uri_parses_to(uri@, t1, t2, t3, t4) {
                    lemma_seg_index(uri@, k0 as int, t1, 0);
                }
            }
        }
        return Err(UriParseError);
    }
    if !match_at(uri, j1, lit1) {
        proof {
            assert forall|t1: Seq<char>, t2: Seq<char>, t3: Seq<char>, t4: Seq<char>|
                !#[trigger] launch_uri_parses_to(uri@, t1, t2, t3, t4) by {
                if launch_uri_parses_to(uri@, t1, t2, t3, t4) {
                    let p2 = k0 + t1.len();
                    reveal_strlit("+clientversion:");
                    lemma_seg_index(uri@, p2 as int, lit_client_version(), 0);
                    lemma_token_scan_agrees(uri@, k0 as int, t1, j1 as int);
                }
            }
        }
        return Err(UriParseError);
    }
    let k1 = j1 + lit1.unicode_len();
    let j2 = scan_field(uri, k1);
    if j2 == k1 {
        proof {
            assert forall|t1: Seq<char>, t2: Seq<char>, t3: Seq<char>, t4: Seq<char>|
                !#[trigger] launch_uri_parses_to(uri@, t1, t2, t3, t4) by {
                if launch_uri_parses_to(uri@, t1, t2, t3, t4) {
                    reveal_strlit("+clientversion:");
                    lemma_seg_index(uri@, k0 + t1.len(), lit_client_version(), 0);
                    lemma_token_scan_agrees(uri@, k0 as int, t1, j1 as int);
                    lemma_seg_index(uri@, j1 + lit_client_version().len(), t2, 0);
                }
            }
        }
        return Err(UriParseError);
    }
    if !match_at(uri, j2, lit2) {
        proof {
            assert forall|t1: Seq<char>, t2: Seq<char>, t3: Seq<char>, t4: Seq<char>|
                !#[trigger] launch_uri_parses_to(uri@, t1, t2, t3, t4) by {
                if launch_uri_parses_to(uri@, t1, t2, t3, t4) {
                    reveal_strlit("+clientversion:");
                    reveal_strlit("+gameinfo:");
                    lemma_seg_index(uri@, k0 + t1.len(), lit_client_version(), 0);
                    lemma_token_scan_agrees(uri@, k0 as int, t1, j1 as int);
                    let q2 = j1 + lit_client_version().len();
                    lemma_seg_index(uri@, q2 + t2.len(), lit_game_info(), 0);
                    lemma_token_scan_agrees(uri@, q2 as int, t2, j2 as int);
                }
            }
        }
        return Err(UriParseError);
    }
    let k2 = j2 + lit2.unicode_len();
    let j3 = scan_field(uri, k2);
    if j3 == k2 {
        proof {
            assert forall|t1: Seq<char>, t2: Seq<char>, t3: Seq<char>, t4: Seq<char>|
                !#[trigger] launch_uri_parses_to(uri@, t1, t2, t3, t4) by {
                if launch_uri_parses_to(uri@, t1, t2, t3, t4) {
                    reveal_strlit("+clientversion:");
                    reveal_strlit("+gameinfo:");
                    lemma_seg_index(uri@, k0 + t1.len(), lit_client_version(), 0);
                    lemma_token_scan_agrees(uri@, k0 as int, t1, j1 as int);
                    let q2 = j1 + lit_client_version().len();
                    lemma_seg_index(uri@, q2 + t2.len(), lit_game_info(), 0);
                    lemma_token_scan_agrees(uri@, q2 as int, t2, j2 as int);
                    let q3 = j2 + lit_game_info().len();
                    lemma_seg_index(uri@, q3 as int, t3, 0);
                }
            }
        }
        return Err(UriParseError);
    }
    if !match_at(uri, j3, lit3) {
        proof {
            assert forall|t1: Seq<char>, t2: Seq<char>, t3: Seq<char>, t4: Seq<char>|
                !#[trigger] launch_uri_parses_to(uri@, t1, t2, t3, t4) by {
                if launch_uri_parses_to(uri@, t1, t2, t3, t4) {
                    reveal_strlit("+clientversion:");
                    reveal_strlit("+gameinfo:");
                    reveal_strlit("+placelauncherurl:");
                    lemma_seg_index(uri@, k0 + t1.len(), lit_client_version(), 0);
                    lemma_token_scan_agrees(uri@, k0 as int, t1, j1 as int);
                    let q2 = j1 + lit_client_version().len();
                    lemma_seg_index(uri@, q2 + t2.len(), lit_game_info(), 0);
                    lemma_token_scan_agrees(uri@, q2 as int, t2, j2 as int);
                    let q3 = j2 + lit_game_info().len();
                    lemma_seg_index(uri@, q3 + t3.len(), lit_place_launcher(), 0);
                    lemma_token_scan_agrees(uri@, q3 as int, t3, j3 as int);
                }
            }
        }
        return Err(UriParseError);
    }
    let k3 = j3 + lit3.unicode_len();
    let j4 = scan_field(uri, k3);
    if j4 == k3 {
        proof {
            assert forall|t1: Seq<char>, t2: Seq<char>, t3: Seq<char>, t4: Seq<char>|
                !#[trigger] launch_uri_parses_to(uri@, t1, t2, t3, t4) by {
                if launch_uri_parses_to(uri@, t1, t2, t3, t4) {
                    reveal_strlit("+clientversion:");
                    reveal_strlit("+gameinfo:");
                    reveal_strlit("+placelauncherurl:");
                    lemma_seg_index(uri@, k0 + t1.len(), lit_client_version(), 0);
                    lemma_token_scan_agrees(uri@, k0 as int, t1, j1 as int);
                    let q2 = j1 + lit_client_version().len();
                    lemma_seg_index(uri@, q2 + t2.len(), lit_game_info(), 0);
                    lemma_token_scan_agrees(uri@, q2 as int, t2, j2 as int);
                    let q3 = j2 + lit_game_info().len();
                    lemma_seg_index(uri@, q3 + t3.len(), lit_place_launcher(), 0);
                    lemma_token_scan_agrees(uri@, q3 as int, t3, j3 as int);
                    let q4 = j3 + lit_place_launcher().len();
                    lemma_seg_index(uri@, q4 as int, t4, 0);
                }
            }
        }
        return Err(UriParseError);
    }
    let launch_mode = String::from_str(uri.substring_char(k0, j1));
    let client_version = String::from_str(uri.substring_char(k1, j2));
    let game_info = String::from_str(uri.substring_char(k2, j3));
    let place_launcher_url = String::from_str(uri.substring_char(k3, j4));
    proof {
        assert forall|i: int| 0 <= i < j1 - k0 implies uri@.subrange(k0 as int, j1 as int)[i]
            != '+' by {
            assert(uri@.subrange(k0 as int, j1 as int)[i] == uri@[k0 + i]);
        }
        assert forall|i: int| 0 <= i < j2 - k1 implies uri@.subrange(k1 as int, j2 as int)[i]
            != '+' by {
            assert(uri@.subrange(k1 as int, j2 as int)[i] == uri@[k1 + i]);
        }
        assert forall|i: int| 0 <= i < j3 - k2 implies uri@.subrange(k2 as int, j3 as int)[i]
            != '+' by {
            assert(uri@.subrange(k2 as int, j3 as int)[i] == uri@[k2 + i]);
        }
        assert forall|i: int| 0 <= i < j4 - k3 implies uri@.subrange(k3 as int, j4 as int)[i]
            != '+' by {
            assert(uri@.subrange(k3 as int, j4 as int)[i] == uri@[k3 + i]);
        }
    }
    Ok(LaunchArgs { launch_mode, client_version, game_info, place_launcher_url })
}

} // verus!
