use tieba_sign::account::{AccountRun, Action, Event, Report};
use tieba_sign::config::account_plans;
use tieba_sign::session::{Failure, FollowData, FollowRes, LikeForum, SignRes, TbsRes};

fn tbs(is_login: i32, value: &str) -> Event {
    Event::Tbs(Ok(TbsRes { is_login, tbs: value.to_string() }))
}

fn follows(names: &[&str]) -> Event {
    Event::Follows(Ok(FollowRes {
        data: FollowData {
            like_forum: names.iter().map(|n| LikeForum { forum_name: n.to_string() }).collect(),
        },
    }))
}

fn answer(code: &str, msg: Option<&str>) -> Result<SignRes, String> {
    Ok(SignRes { error_code: code.to_string(), error_msg: msg.map(|m| m.to_string()) })
}

fn logged_in(idx: usize, verifier: &str) -> AccountRun {
    let mut run = AccountRun::new(idx);
    assert!(matches!(run.step(Event::Begin), Action::FetchTbs));
    assert!(matches!(run.step(tbs(1, verifier)), Action::FetchFollows));
    run
}

#[test]
fn run_starts_with_login() {
    let mut run = AccountRun::new(4);
    assert!(!run.is_done());
    assert!(matches!(run.step(Event::Begin), Action::FetchTbs));
    assert!(matches!(run.step(Event::Begin), Action::Nothing));
}

#[test]
fn failed_login_makes_no_further_requests() {
    let mut run = AccountRun::new(2);
    assert!(matches!(run.step(Event::Begin), Action::FetchTbs));
    match run.step(tbs(0, "XYZ")) {
        Action::Finish(Report::LoginFailed { idx, reason: Failure::NotLoggedIn }) => assert_eq!(idx, 2),
        _ => panic!("expected a login failure report"),
    }
    assert!(run.is_done());
    assert!(matches!(run.step(follows(&["alpha"])), Action::Nothing));
    assert!(matches!(run.step(Event::Signed(vec![answer("0", None)])), Action::Nothing));
    assert!(matches!(run.step(Event::Begin), Action::Nothing));
}

#[test]
fn login_request_error_is_reported() {
    let mut run = AccountRun::new(1);
    run.step(Event::Begin);
    match run.step(Event::Tbs(Err("timed out".to_string()))) {
        Action::Finish(Report::LoginFailed { idx, reason: Failure::Request(m) }) => {
            assert_eq!(idx, 1);
            assert_eq!(m, "timed out");
        }
        _ => panic!("expected a login failure report"),
    }
}

#[test]
fn list_error_is_reported() {
    let mut run = logged_in(3, "XYZ");
    match run.step(Event::Follows(Err("bad json".to_string()))) {
        Action::Finish(Report::ListFailed { idx, reason: Failure::Request(m) }) => {
            assert_eq!(idx, 3);
            assert_eq!(m, "bad json");
        }
        _ => panic!("expected a list failure report"),
    }
    assert!(run.is_done());
}

#[test]
fn one_check_in_per_forum_and_counts_add_up() {
    let mut run = logged_in(1, "T");
    let names = ["a", "b", "c", "d"];
    match run.step(follows(&names)) {
        Action::SubmitSigns(reqs) => {
            assert_eq!(reqs.len(), 4);
            for (r, n) in reqs.iter().zip(names.iter()) {
                assert_eq!(r.forum, *n);
            }
        }
        _ => panic!("expected check-ins"),
    }
    let answers = vec![
        answer("0", None),
        answer("1", Some("no")),
        Err("reset".to_string()),
        answer("0", None),
    ];
    match run.step(Event::Signed(answers)) {
        Action::Finish(Report::Signed { outcomes, success, failure, .. }) => {
            assert_eq!(outcomes.len(), 4);
            assert_eq!(success, 2);
            assert_eq!(failure, 2);
            assert_eq!(success + failure, 4);
        }
        _ => panic!("expected a summary"),
    }
}

#[test]
fn empty_list_gives_empty_summary() {
    let mut run = logged_in(1, "T");
    assert!(matches!(run.step(follows(&[])), Action::SubmitSigns(ref r) if r.is_empty()));
    match run.step(Event::Signed(vec![])) {
        Action::Finish(Report::Signed { outcomes, success, failure, .. }) => {
            assert!(outcomes.is_empty());
            assert_eq!((success, failure), (0, 0));
        }
        _ => panic!("expected a summary"),
    }
}

#[test]
fn failure_of_one_forum_leaves_other_counted() {
    let mut run = logged_in(1, "T");
    run.step(follows(&["A", "B"]));
    match run.step(Event::Signed(vec![Err("connection refused".to_string()), answer("0", None)])) {
        Action::Finish(Report::Signed { outcomes, success, failure, .. }) => {
            assert!(matches!(outcomes[0].result, Err(Failure::Request(ref m)) if m == "connection refused"));
            assert_eq!(outcomes[1].forum, "B");
            assert!(outcomes[1].result.is_ok());
            assert_eq!((success, failure), (1, 1));
        }
        _ => panic!("expected a summary"),
    }
}

#[test]
fn answers_of_wrong_count_are_ignored() {
    let mut run = logged_in(1, "T");
    run.step(follows(&["A", "B"]));
    assert!(matches!(run.step(Event::Signed(vec![answer("0", None)])), Action::Nothing));
    assert!(!run.is_done());
}

#[test]
fn token_list_gives_independent_runs() {
    let plans = account_plans("tokA&tokB&tokC");
    let idxs: Vec<usize> = plans.iter().map(|p| p.idx).collect();
    assert_eq!(idxs, vec![1, 2, 3]);
    let mut first = AccountRun::new(plans[0].idx);
    let mut second = AccountRun::new(plans[1].idx);
    first.step(Event::Begin);
    first.step(tbs(1, "one"));
    second.step(Event::Begin);
    second.step(tbs(0, ""));
    assert_eq!(first.tbs, "one");
    assert!(second.tbs.is_empty());
    assert!(!first.is_done());
    assert!(second.is_done());
}

#[test]
fn end_to_end_two_forums() {
    let mut run = AccountRun::new(1);
    assert!(matches!(run.step(Event::Begin), Action::FetchTbs));
    assert!(matches!(run.step(tbs(1, "XYZ")), Action::FetchFollows));
    match run.step(follows(&["alpha", "beta"])) {
        Action::SubmitSigns(reqs) => {
            assert_eq!(reqs.len(), 2);
            assert_eq!(reqs[0].forum, "alpha");
            assert_eq!(reqs[0].body, "kw=alpha&tbs=XYZ&sign=a927c27d7f74ab9265b0e74b4b304228");
            assert_eq!(reqs[1].forum, "beta");
            assert_eq!(reqs[1].body, "kw=beta&tbs=XYZ&sign=67b608993ee3b63aaa8eba2c28147a10");
        }
        _ => panic!("expected check-ins"),
    }
    match run.step(Event::Signed(vec![answer("0", None), answer("1", Some("too late"))])) {
        Action::Finish(Report::Signed { idx, outcomes, success, failure }) => {
            assert_eq!(idx, 1);
            assert_eq!(outcomes[0].forum, "alpha");
            assert!(outcomes[0].result.is_ok());
            assert_eq!(outcomes[1].forum, "beta");
            assert!(matches!(outcomes[1].result, Err(Failure::Rejected(ref m)) if m == "too late"));
            assert_eq!((success, failure), (1, 1));
        }
        _ => panic!("expected a summary"),
    }
    assert!(run.is_done());
}
