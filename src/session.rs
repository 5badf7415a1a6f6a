//! What one account's requests carry and how their answers are read: the
//! fixed endpoints and headers, the signed check-in form, and the verdicts
//! on the login, subscription-list and check-in answers.

use vstd::prelude::*;
use crate::sign::{sign, signature};

verus! {

/// Where the session verifier is fetched.
pub const TBS_URL: &'static str = "http://tieba.baidu.com/dc/common/tbs";

/// Where the list of followed forums is fetched.
pub const LIKE_URL: &'static str = "https://tieba.baidu.com/mo/q/newmoindex";

/// Where check-ins are submitted.
pub const SIGN_URL: &'static str = "http://c.tieba.baidu.com/c/c/forum/sign";

/// The browser identity that every request presents.
pub const USER_AGENT: &'static str = "Mozilla/5.0 (Windows NT 6.1; WOW64) AppleWebKit/537.36 (KHTML, like Gecko) Chrome/39.0.2171.71 Safari/537.36";

/// Answer of the session-verifier endpoint.
pub struct TbsRes {
    pub is_login: i32,
    pub tbs: String,
}

/// One followed forum in the subscription list.
pub struct LikeForum {
    pub forum_name: String,
}

/// The `data` object of the subscription list.
pub struct FollowData {
    pub like_forum: Vec<LikeForum>,
}

/// Answer of the subscription-list endpoint.
pub struct FollowRes {
    pub data: FollowData,
}

/// Answer of the check-in endpoint.
pub struct SignRes {
    pub error_code: String,
    pub error_msg: Option<String>,
}

/// Why a login, a list fetch or a check-in failed.
pub enum Failure {
    /// The session endpoint says the account is not logged in.
    NotLoggedIn,
    /// The request or the decoding of its answer failed; the text says how.
    Request(String),
    /// The server refused the check-in with this message.
    Rejected(String),
    /// The server refused the check-in with this error code and no message.
    Code(String),
}

pub enum FailureModel {
    NotLoggedIn,
    Request(Seq<char>),
    Rejected(Seq<char>),
    Code(Seq<char>),
}

impl View for Failure {
    type V = FailureModel;

    open spec fn view(&self) -> FailureModel {
        match self {
            Failure::NotLoggedIn => FailureModel::NotLoggedIn,
            Failure::Request(m) => FailureModel::Request(m@),
            Failure::Rejected(m) => FailureModel::Rejected(m@),
            Failure::Code(c) => FailureModel::Code(c@),
        }
    }
}

/// The cookie that carries an account token.
pub open spec fn cookie_of(token: Seq<char>) -> Seq<char> {
    "BDUSS="@ + token
}

/// The form body of a signed check-in of `forum` with verifier `tbs`.
pub open spec fn form_body(forum: Seq<char>, tbs: Seq<char>) -> Seq<char> {
    "kw="@ + forum + "&tbs="@ + tbs + "&sign="@ + signature(forum, tbs)
}

/// The forum names of a subscription list, in the server's order.
pub open spec fn names_of(res: FollowRes) -> Seq<Seq<char>> {
    res.data.like_forum@.map_values(|f: LikeForum| f.forum_name@)
}

/// The verdict on a check-in answer: `None` for success.
pub open spec fn sign_verdict(res: SignRes) -> Option<FailureModel> {
    if res.error_code@ == "0"@ {
        None
    } else {
        match res.error_msg {
            Some(m) => Some(FailureModel::Rejected(m@)),
            None => Some(FailureModel::Code(res.error_code@)),
        }
    }
}

/// The cookie header value for an account token.
pub fn cookie_value(token: &str) -> (r: String)
    ensures
        r@ == cookie_of(token@),
{
    let mut s = String::from_str("BDUSS=");
    s.append(token);
    s
}

/// The form body of a signed check-in of `forum` with verifier `tbs`.
pub fn sign_body(forum: &str, tbs: &str) -> (r: String)
    ensures
        r@ == form_body(forum@, tbs@),
{
    let signature = sign(forum, tbs);
    let mut s = String::from_str("kw=");
    s.append(forum);
    s.append("&tbs=");
    s.append(tbs);
    s.append("&sign=");
    s.append(signature.as_str());
    s
}

/// The session verifier of a login answer, or `NotLoggedIn` when the answer
/// does not report a login.
pub fn login_verifier(res: &TbsRes) -> (r: Result<String, Failure>)
    ensures
        res.is_login == 1 ==> (r matches Ok(t) && t@ == res.tbs@),
        res.is_login != 1 ==> (r matches Err(Failure::NotLoggedIn)),
{
    if res.is_login == 1 {
        Ok(res.tbs.clone())
    } else {
        Err(Failure::NotLoggedIn)
    }
}

/// The forum names of a subscription list, in the server's order.
pub fn follow_names(res: &FollowRes) -> (r: Vec<String>)
    ensures
        r@.map_values(|s: String| s@) == names_of(*res),
{
    let forums = &res.data.like_forum;
    let mut names: Vec<String> = Vec::new();
    let mut i: usize = 0;
    while i < forums.len()
        invariant
            i <= forums@.len(),
            forums == &res.data.like_forum,
            names@.map_values(|s: String| s@) =~= names_of(*res).subrange(0, i as int),
        decreases forums@.len() - i,
    {
        let ghost before = names@;
        names.push(forums[i].forum_name.clone());
        proof {
            assert(names@.map_values(|s: String| s@) =~= before.map_values(|s: String| s@).push(
                forums@[i as int].forum_name@,
            ));
        }
        i = i + 1;
    }
    names
}

/// The verdict on a check-in answer: success exactly when the error code is
/// `"0"`; otherwise the server's message, or its error code when it sent none.
pub fn check_sign(res: &SignRes) -> (r: Result<(), Failure>)
    ensures
        match r {
            Ok(()) => sign_verdict(*res) is None,
            Err(f) => sign_verdict(*res) == Some(f@),
        },
{
    proof {
        reveal_strlit("0");
    }
    let code = res.error_code.as_str();
    if code.unicode_len() == 1 && code.get_char(0) == '0' {
        proof {
            assert(res.error_code@ =~= "0"@);
        }
        Ok(())
    } else {
        match &res.error_msg {
            Some(m) => Err(Failure::Rejected(m.clone())),
            None => Err(Failure::Code(res.error_code.clone())),
        }
    }
}

} // verus!
