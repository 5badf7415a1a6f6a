//! One account's run as a state machine: the caller performs each action
//! (a request, or logging the report) and hands back what came of it.
//! Login comes first, then the subscription list, then one check-in per
//! forum, all submitted together, then one report.

use vstd::prelude::*;
use crate::session::{
    Failure, FailureModel, FollowRes, SignRes, TbsRes, check_sign, follow_names, form_body,
    login_verifier, names_of, sign_body, sign_verdict,
};

verus! {

/// Where a run stands.
#[derive(Clone, Copy, PartialEq, Eq, Structural, Debug)]
pub enum Phase {
    Created,
    AwaitTbs,
    AwaitFollows,
    AwaitSigns,
    Done,
}

/// What came of the last action.
pub enum Event {
    /// The run is started.
    Begin,
    /// The answer of the session-verifier request, or why it failed.
    Tbs(Result<TbsRes, String>),
    /// The answer of the subscription-list request, or why it failed.
    Follows(Result<FollowRes, String>),
    /// The answers of the check-in requests, in the order they were asked
    /// for, each or why it failed.
    Signed(Vec<Result<SignRes, String>>),
}

/// One check-in to submit.
pub struct SignRequest {
    pub forum: String,
    pub body: String,
}

/// What came of one forum's check-in.
pub struct ForumOutcome {
    pub forum: String,
    pub result: Result<(), Failure>,
}

/// The account's report, given once when its run ends.
pub enum Report {
    LoginFailed { idx: usize, reason: Failure },
    ListFailed { idx: usize, reason: Failure },
    Signed { idx: usize, outcomes: Vec<ForumOutcome>, success: usize, failure: usize },
}

/// What the caller is to do next.
pub enum Action {
    FetchTbs,
    FetchFollows,
    SubmitSigns(Vec<SignRequest>),
    Finish(Report),
    /// The event did not fit where the run stands; it was ignored.
    Nothing,
}

/// One account's run.
pub struct AccountRun {
    /// The account's place in the account list, from one.
    pub idx: usize,
    /// The session verifier, once logged in.
    pub tbs: String,
    /// The followed forums, once listed.
    pub forums: Vec<String>,
    pub phase: Phase,
}

pub struct RunModel {
    pub idx: nat,
    pub tbs: Seq<char>,
    pub forums: Seq<Seq<char>>,
    pub phase: Phase,
}

pub struct RequestModel {
    pub forum: Seq<char>,
    pub body: Seq<char>,
}

pub struct OutcomeModel {
    pub forum: Seq<char>,
    /// `None` for a successful check-in.
    pub failure: Option<FailureModel>,
}

pub enum ReportModel {
    LoginFailed(nat, FailureModel),
    ListFailed(nat, FailureModel),
    /// Account index, outcomes, success count, failure count.
    Signed(nat, Seq<OutcomeModel>, nat, nat),
}

pub enum ActionModel {
    FetchTbs,
    FetchFollows,
    SubmitSigns(Seq<RequestModel>),
    Finish(ReportModel),
    Nothing,
}

impl View for AccountRun {
    type V = RunModel;

    open spec fn view(&self) -> RunModel {
        RunModel {
            idx: self.idx as nat,
            tbs: self.tbs@,
            forums: self.forums@.map_values(|s: String| s@),
            phase: self.phase,
        }
    }
}

impl View for SignRequest {
    type V = RequestModel;

    open spec fn view(&self) -> RequestModel {
        RequestModel { forum: self.forum@, body: self.body@ }
    }
}

impl View for ForumOutcome {
    type V = OutcomeModel;

    open spec fn view(&self) -> OutcomeModel {
        OutcomeModel {
            forum: self.forum@,
            failure: match self.result {
                Ok(()) => None,
                Err(f) => Some(f@),
            },
        }
    }
}

impl View for Report {
    type V = ReportModel;

    open spec fn view(&self) -> ReportModel {
        match self {
            Report::LoginFailed { idx, reason } => ReportModel::LoginFailed(*idx as nat, reason@),
            Report::ListFailed { idx, reason } => ReportModel::ListFailed(*idx as nat, reason@),
            Report::Signed { idx, outcomes, success, failure } => ReportModel::Signed(
                *idx as nat,
                outcomes@.map_values(|o: ForumOutcome| o@),
                *success as nat,
                *failure as nat,
            ),
        }
    }
}

impl View for Action {
    type V = ActionModel;

    open spec fn view(&self) -> ActionModel {
        match self {
            Action::FetchTbs => ActionModel::FetchTbs,
            Action::FetchFollows => ActionModel::FetchFollows,
            Action::SubmitSigns(rs) => ActionModel::SubmitSigns(rs@.map_values(|r: SignRequest| r@)),
            Action::Finish(r) => ActionModel::Finish(r@),
            Action::Nothing => ActionModel::Nothing,
        }
    }
}

/// The check-ins to submit for `forums` with verifier `tbs`, one per forum,
/// in the list's order.
pub open spec fn requests_for(forums: Seq<Seq<char>>, tbs: Seq<char>) -> Seq<RequestModel> {
    Seq::new(forums.len(), |i: int| RequestModel { forum: forums[i], body: form_body(forums[i], tbs) })
}

/// What came of a check-in of `forum` whose answer was `r`.
pub open spec fn outcome_of(forum: Seq<char>, r: Result<SignRes, String>) -> OutcomeModel {
    OutcomeModel {
        forum,
        failure: match r {
            Ok(res) => sign_verdict(res),
            Err(e) => Some(FailureModel::Request(e@)),
        },
    }
}

/// The outcomes of the check-ins of `forums`, forum `i` answered by `rs[i]`.
pub open spec fn outcomes_for(forums: Seq<Seq<char>>, rs: Seq<Result<SignRes, String>>) -> Seq<
    OutcomeModel,
> {
    Seq::new(forums.len(), |i: int| outcome_of(forums[i], rs[i]))
}

pub open spec fn success_count(outs: Seq<OutcomeModel>) -> nat
    decreases outs.len(),
{
    if outs.len() == 0 {
        0
    } else {
        success_count(outs.drop_last()) + if outs.last().failure is None {
            1nat
        } else {
            0nat
        }
    }
}

pub open spec fn failure_count(outs: Seq<OutcomeModel>) -> nat
    decreases outs.len(),
{
    if outs.len() == 0 {
        0
    } else {
        failure_count(outs.drop_last()) + if outs.last().failure is Some {
            1nat
        } else {
            0nat
        }
    }
}

/// The report of a run that signed `forums` and got `rs` back.
pub open spec fn signed_report(idx: nat, forums: Seq<Seq<char>>, rs: Seq<Result<SignRes, String>>) -> ReportModel {
    let outs = outcomes_for(forums, rs);
    ReportModel::Signed(idx, outs, success_count(outs), failure_count(outs))
}

/// One step of a run: the state after event `e` and the action it calls for.
pub open spec fn next(m: RunModel, e: Event) -> (RunModel, ActionModel) {
    let ignored = (m, ActionModel::Nothing);
    let done = RunModel { phase: Phase::Done, ..m };
    match e {
        Event::Begin => if m.phase == Phase::Created {
            (RunModel { phase: Phase::AwaitTbs, ..m }, ActionModel::FetchTbs)
        } else {
            ignored
        },
        Event::Tbs(r) => if m.phase == Phase::AwaitTbs {
            match r {
                Ok(t) => if t.is_login == 1 {
                    (RunModel { tbs: t.tbs@, phase: Phase::AwaitFollows, ..m }, ActionModel::FetchFollows)
                } else {
                    (done, ActionModel::Finish(ReportModel::LoginFailed(m.idx, FailureModel::NotLoggedIn)))
                },
                Err(msg) => (
                    done,
                    ActionModel::Finish(ReportModel::LoginFailed(m.idx, FailureModel::Request(msg@))),
                ),
            }
        } else {
            ignored
        },
        Event::Follows(r) => if m.phase == Phase::AwaitFollows {
            match r {
                Ok(f) => (
                    RunModel { forums: names_of(f), phase: Phase::AwaitSigns, ..m },
                    ActionModel::SubmitSigns(requests_for(names_of(f), m.tbs)),
                ),
                Err(msg) => (
                    done,
                    ActionModel::Finish(ReportModel::ListFailed(m.idx, FailureModel::Request(msg@))),
                ),
            }
        } else {
            ignored
        },
        Event::Signed(rs) => if m.phase == Phase::AwaitSigns && rs@.len() == m.forums.len() {
            (done, ActionModel::Finish(signed_report(m.idx, m.forums, rs@)))
        } else {
            ignored
        },
    }
}

/// The actions that a run starting at `m` calls for, event after event.
pub open spec fn actions_of(m: RunModel, es: Seq<Event>) -> Seq<ActionModel>
    decreases es.len(),
{
    if es.len() == 0 {
        Seq::empty()
    } else {
        let (m2, a) = next(m, es[0]);
        seq![a] + actions_of(m2, es.drop_first())
    }
}

/// Whether an action asks for the subscription list or submits check-ins.
pub open spec fn needs_session(a: ActionModel) -> bool {
    a is FetchFollows || a is SubmitSigns
}

/// A finished run ignores every later event.
pub proof fn lemma_done_is_final(m: RunModel, es: Seq<Event>)
    requires
        m.phase == Phase::Done,
    ensures
        actions_of(m, es).len() == es.len(),
        forall|i: int| 0 <= i < es.len() ==> #[trigger] actions_of(m, es)[i] is Nothing,
    decreases es.len(),
{
    if es.len() > 0 {
        lemma_done_is_final(m, es.drop_first());
        let rest = actions_of(m, es.drop_first());
        assert forall|i: int| 0 <= i < es.len() implies #[trigger] actions_of(m, es)[i] is Nothing by {
            if i > 0 {
                assert(actions_of(m, es)[i] == rest[i - 1]);
            }
        }
    }
}

/// When the login answer reports no login, the run ends there: whatever
/// events come after, it never asks for the subscription list nor submits
/// a check-in.
pub proof fn lemma_failed_login_stops(m: RunModel, t: TbsRes, later: Seq<Event>)
    requires
        m.phase == Phase::AwaitTbs,
        t.is_login != 1,
    ensures
        forall|i: int|
            0 <= i < actions_of(m, seq![Event::Tbs(Ok(t))] + later).len() ==> !needs_session(
                #[trigger] actions_of(m, seq![Event::Tbs(Ok(t))] + later)[i],
            ),
{
    let es = seq![Event::Tbs(Ok(t))] + later;
    let (m2, a) = next(m, es[0]);
    assert(es.drop_first() =~= later);
    lemma_done_is_final(m2, later);
    let all = actions_of(m, es);
    assert forall|i: int| 0 <= i < all.len() implies !needs_session(#[trigger] all[i]) by {
        if i > 0 {
            assert(all[i] == actions_of(m2, later)[i - 1]);
        }
    }
}

/// Check-ins are only called for by a run that waits for its list, and a
/// run only comes to wait for its list through a login answer that reports
/// a login; the verifier it then holds is that answer's.
pub proof fn lemma_check_ins_follow_login(m: RunModel, e: Event)
    ensures
        next(m, e).1 is SubmitSigns ==> m.phase == Phase::AwaitFollows,
        next(m, e).0.phase == Phase::AwaitFollows && m.phase != Phase::AwaitFollows ==> (
        m.phase == Phase::AwaitTbs && (e matches Event::Tbs(Ok(t)) && t.is_login == 1 && next(
            m,
            e,
        ).0.tbs == t.tbs@)),
{
}

/// Every outcome is either a success or a failure.
pub proof fn lemma_counts_add_up(outs: Seq<OutcomeModel>)
    ensures
        success_count(outs) + failure_count(outs) == outs.len(),
    decreases outs.len(),
{
    if outs.len() > 0 {
        lemma_counts_add_up(outs.drop_last());
    }
}

/// A list of `n` forums makes exactly `n` check-ins, one per forum in list
/// order, and once their answers are in, the report's success and failure
/// counts add up to `n`.
pub proof fn lemma_one_check_in_per_forum(m: RunModel, f: FollowRes, rs: Vec<Result<SignRes, String>>)
    requires
        m.phase == Phase::AwaitFollows,
        rs@.len() == names_of(f).len(),
    ensures
        next(m, Event::Follows(Ok(f))).1 == ActionModel::SubmitSigns(requests_for(names_of(f), m.tbs)),
        requests_for(names_of(f), m.tbs).len() == names_of(f).len(),
        forall|i: int|
            0 <= i < names_of(f).len() ==> (#[trigger] requests_for(names_of(f), m.tbs)[i]).forum
                == names_of(f)[i],
        next(next(m, Event::Follows(Ok(f))).0, Event::Signed(rs)).1 == ActionModel::Finish(
            signed_report(m.idx, names_of(f), rs@),
        ),
        outcomes_for(names_of(f), rs@).len() == names_of(f).len(),
        success_count(outcomes_for(names_of(f), rs@)) + failure_count(outcomes_for(names_of(f), rs@))
            == names_of(f).len(),
{
    lemma_counts_add_up(outcomes_for(names_of(f), rs@));
}

proof fn lemma_failure_adds_no_success(outs: Seq<OutcomeModel>, j: int)
    requires
        0 <= j < outs.len(),
        outs[j].failure is Some,
    ensures
        success_count(outs) == success_count(outs.remove(j)),
    decreases outs.len(),
{
    if j == outs.len() - 1 {
        assert(outs.remove(j) =~= outs.drop_last());
    } else {
        lemma_failure_adds_no_success(outs.drop_last(), j);
        assert(outs.remove(j).drop_last() =~= outs.drop_last().remove(j));
        assert(outs.remove(j).last() == outs.last());
    }
}

/// A failed check-in does not touch the others: every other forum's
/// outcome comes from its own answer alone, and the successes counted are
/// exactly those that the other forums give on their own.
pub proof fn lemma_failure_isolated(forums: Seq<Seq<char>>, rs: Seq<Result<SignRes, String>>, j: int)
    requires
        forums.len() == rs.len(),
        0 <= j < forums.len(),
        outcome_of(forums[j], rs[j]).failure is Some,
    ensures
        forall|i: int|
            0 <= i < forums.len() && i != j ==> #[trigger] outcomes_for(forums, rs)[i] == outcome_of(
                forums[i],
                rs[i],
            ),
        success_count(outcomes_for(forums, rs)) == success_count(
            outcomes_for(forums.remove(j), rs.remove(j)),
        ),
{
    let outs = outcomes_for(forums, rs);
    assert(outcomes_for(forums.remove(j), rs.remove(j)) =~= outs.remove(j));
    lemma_failure_adds_no_success(outs, j);
}

impl AccountRun {
    /// A fresh run for the account at place `idx` of the list.
    pub fn new(idx: usize) -> (r: AccountRun)
        ensures
            r@ == (RunModel { idx: idx as nat, tbs: Seq::empty(), forums: Seq::empty(), phase: Phase::Created }),
    {
        let r = AccountRun { idx, tbs: String::new(), forums: Vec::new(), phase: Phase::Created };
        proof {
            assert(r@.forums =~= Seq::<Seq<char>>::empty());
        }
        r
    }

    /// Whether the run has ended.
    pub fn is_done(&self) -> (r: bool)
        ensures
            r == (self.phase == Phase::Done),
    {
        self.phase == Phase::Done
    }

    /// Takes event `e` and says what to do next.
    pub fn step(&mut self, e: Event) -> (a: Action)
        ensures
            (final(self)@, a@) == next(old(self)@, e),
    {
        match e {
            Event::Begin => {
                if self.phase == Phase::Created {
                    self.phase = Phase::AwaitTbs;
                    Action::FetchTbs
                } else {
                    Action::Nothing
                }
            },
            Event::Tbs(r) => {
                if self.phase != Phase::AwaitTbs {
                    return Action::Nothing;
                }
                match r {
                    Ok(t) => match login_verifier(&t) {
                        Ok(tbs) => {
                            self.tbs = tbs;
                            self.phase = Phase::AwaitFollows;
                            Action::FetchFollows
                        },
                        Err(failure) => {
                            self.phase = Phase::Done;
                            Action::Finish(Report::LoginFailed { idx: self.idx, reason: failure })
                        },
                    },
                    Err(msg) => {
                        self.phase = Phase::Done;
                        Action::Finish(Report::LoginFailed { idx: self.idx, reason: Failure::Request(msg) })
                    },
                }
            },
            Event::Follows(r) => {
                if self.phase != Phase::AwaitFollows {
                    return Action::Nothing;
                }
                match r {
                    Ok(f) => {
                        let names = follow_names(&f);
                        let requests = self.requests(&names);
                        self.forums = names;
                        self.phase = Phase::AwaitSigns;
                        Action::SubmitSigns(requests)
                    },
                    Err(msg) => {
                        self.phase = Phase::Done;
                        Action::Finish(Report::ListFailed { idx: self.idx, reason: Failure::Request(msg) })
                    },
                }
            },
            Event::Signed(rs) => {
                if self.phase != Phase::AwaitSigns || rs.len() != self.forums.len() {
                    return Action::Nothing;
                }
                let report = self.tally(&rs);
                self.phase = Phase::Done;
                Action::Finish(report)
            },
        }
    }

    /// One signed check-in request per forum of `names`, in order.
    fn requests(&self, names: &Vec<String>) -> (r: Vec<SignRequest>)
        ensures
            r@.map_values(|q: SignRequest| q@) == requests_for(names@.map_values(|s: String| s@), self.tbs@),
    {
        let ghost forums = names@.map_values(|s: String| s@);
        let mut out: Vec<SignRequest> = Vec::new();
        let mut i: usize = 0;
        while i < names.len()
            invariant
                i <= names@.len(),
                forums == names@.map_values(|s: String| s@),
                out@.map_values(|q: SignRequest| q@) =~= requests_for(forums, self.tbs@).subrange(0, i as int),
            decreases names@.len() - i,
        {
            let forum = &names[i];
            let body = sign_body(forum.as_str(), self.tbs.as_str());
            let ghost before = out@;
            out.push(SignRequest { forum: forum.clone(), body });
            proof {
                assert(out@.map_values(|q: SignRequest| q@) =~= before.map_values(|q: SignRequest| q@).push(
                    requests_for(forums, self.tbs@)[i as int],
                ));
            }
            i = i + 1;
        }
        out
    }

    /// The report once every forum's check-in has come back, forum `i`
    /// answered by `rs[i]`.
    fn tally(&self, rs: &Vec<Result<SignRes, String>>) -> (r: Report)
        requires
            rs@.len() == self.forums@.len(),
        ensures
            r@ == signed_report(self.idx as nat, self@.forums, rs@),
    {
        let ghost forums = self@.forums;
        let ghost all = outcomes_for(forums, rs@);
        let mut outcomes: Vec<ForumOutcome> = Vec::new();
        let mut success: usize = 0;
        let mut failure: usize = 0;
        let mut i: usize = 0;
        while i < rs.len()
            invariant
                i <= rs@.len(),
                rs@.len() == forums.len(),
                forums == self@.forums,
                all == outcomes_for(forums, rs@),
                outcomes@.map_values(|o: ForumOutcome| o@) =~= all.subrange(0, i as int),
                success as nat == success_count(all.subrange(0, i as int)),
                failure as nat == failure_count(all.subrange(0, i as int)),
                success + failure == i,
            decreases rs@.len() - i,
        {
            let result = match &rs[i] {
                Ok(res) => check_sign(res),
                Err(e) => Err(Failure::Request(e.clone())),
            };
            let ok = result.is_ok();
            if ok {
                success = success + 1;
            } else {
                failure = failure + 1;
            }
            let ghost before = outcomes@;
            let outcome = ForumOutcome { forum: self.forums[i].clone(), result };
            proof {
                assert(outcome@ == all[i as int]);
            }
            outcomes.push(outcome);
            proof {
                assert(all.subrange(0, i + 1).drop_last() =~= all.subrange(0, i as int));
                assert(outcomes@.map_values(|o: ForumOutcome| o@) =~= before.map_values(|o: ForumOutcome| o@).push(
                    all[i as int],
                ));
            }
            i = i + 1;
        }
        proof {
            assert(all.subrange(0, i as int) =~= all);
        }
        Report::Signed { idx: self.idx, outcomes, success, failure }
    }
}

} // verus!
