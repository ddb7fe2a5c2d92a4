use radio_mirrors::dispatch::{
    first_step, next_step, Failure, MirrorRequest, Outcome, SearchError, Step, ATTEMPT_TIMEOUT_SECS,
    RESULT_LIMIT,
};
use radio_mirrors::registry::MirrorRegistry;
use radio_mirrors::station::Station;

fn station(id: &str, name: &str) -> Station {
    Station {
        stationuuid: id.to_string(),
        name: name.to_string(),
        url: format!("http://stream.example/{}", id),
        url_resolved: format!("http://stream.example/{}.mp3", id),
        homepage: String::new(),
        favicon: String::new(),
        tags: "jazz,smooth".to_string(),
        country: "France".to_string(),
        language: "french".to_string(),
    }
}

fn three_mirrors() -> MirrorRegistry {
    MirrorRegistry::new(vec![
        "http://a.example".to_string(),
        "http://b.example".to_string(),
        "http://c.example".to_string(),
    ])
}

/// Runs a search in which the mirror at position `i` answers `answers[i]`;
/// returns the requests sent, in order, and the result.
fn drive(
    query: &str,
    registry: &MirrorRegistry,
    answers: Vec<Outcome<String>>,
) -> (Vec<MirrorRequest>, Result<Vec<Station>, SearchError<String>>) {
    let mut sent = Vec::new();
    let mut step = first_step::<String>(query, registry);
    loop {
        match step {
            Step::Request(req) => {
                let k = req.mirror;
                sent.push(req);
                step = next_step(query, registry, k, answers[k].clone());
            }
            Step::Done(result) => return (sent, result),
        }
    }
}

fn transport(detail: &str) -> Outcome<String> {
    Outcome::Failed(Failure::Transport(detail.to_string()))
}

#[test]
fn whitespace_query_makes_no_calls() {
    let (sent, result) = drive("  ", &three_mirrors(), vec![]);
    assert_eq!(sent.len(), 0);
    assert_eq!(result, Ok(vec![]));
}

#[test]
fn empty_and_blank_queries_succeed_empty() {
    for q in ["", "\t\n ", "\u{3000}\u{a0}"] {
        let s = first_step::<String>(q, &three_mirrors());
        assert_eq!(s, Step::Done(Ok(vec![])));
    }
}

#[test]
fn failover_to_third_mirror() {
    let stations = vec![station("u1", "Jazz One"), station("u2", "Jazz Two")];
    let answers = vec![
        transport("operation timed out"),
        Outcome::Failed(Failure::Status("500 Internal Server Error".to_string())),
        Outcome::Success(stations.clone()),
    ];
    let (sent, result) = drive("jazz", &three_mirrors(), answers);
    assert_eq!(sent.len(), 3);
    assert_eq!(result, Ok(stations));
}

#[test]
fn all_transport_failures_report_last_mirror() {
    let answers = vec![transport("a: refused"), transport("b: dns"), transport("c: timed out")];
    let (sent, result) = drive("jazz", &three_mirrors(), answers);
    assert_eq!(sent.len(), 3);
    assert_eq!(
        result,
        Err(SearchError::AllMirrorsFailed(Failure::Transport("c: timed out".to_string())))
    );
    let shown = format!("{:?}", result);
    assert!(!shown.contains("a: refused"));
    assert!(!shown.contains("b: dns"));
}

#[test]
fn first_success_stops_the_walk() {
    let first = vec![station("u1", "Blue")];
    let answers = vec![
        transport("down"),
        Outcome::Success(first.clone()),
        Outcome::Success(vec![station("u9", "Never")]),
    ];
    let (sent, result) = drive("blue", &three_mirrors(), answers);
    assert_eq!(sent.len(), 2);
    assert_eq!(sent[1].mirror, 1);
    assert_eq!(result, Ok(first));
}

#[test]
fn first_mirror_success_makes_one_call() {
    let answers = vec![Outcome::Success(vec![]), transport("x"), transport("y")];
    let (sent, result) = drive("rock", &three_mirrors(), answers);
    assert_eq!(sent.len(), 1);
    assert_eq!(result, Ok(vec![]));
}

#[test]
fn earlier_failure_details_do_not_matter() {
    let last = Outcome::Failed(Failure::Parse("c: expected array".to_string()));
    let one = vec![transport("a"), Outcome::Failed(Failure::Status("b 502".to_string())), last.clone()];
    let two = vec![Outcome::Failed(Failure::Status("a 404".to_string())), transport("b"), last];
    let (_, r1) = drive("x", &three_mirrors(), one);
    let (_, r2) = drive("x", &three_mirrors(), two);
    assert_eq!(r1, r2);
    assert_eq!(
        r1,
        Err(SearchError::AllMirrorsFailed(Failure::Parse("c: expected array".to_string())))
    );
}

#[test]
fn parse_failure_falls_through_like_transport_failure() {
    let good = vec![station("u3", "Kept")];
    let parse = vec![
        Outcome::Failed(Failure::Parse("bad json".to_string())),
        Outcome::Success(good.clone()),
        transport("z"),
    ];
    let conn = vec![transport("bad json"), Outcome::Success(good.clone()), transport("z")];
    let (sent_p, r_p) = drive("q", &three_mirrors(), parse);
    let (sent_c, r_c) = drive("q", &three_mirrors(), conn);
    assert_eq!(sent_p.len(), 2);
    assert_eq!(sent_c.len(), 2);
    assert_eq!(r_p, Ok(good));
    assert_eq!(r_p, r_c);
}

#[test]
fn request_carries_query_untrimmed() {
    let s = first_step::<String>(" smooth jazz ", &three_mirrors());
    assert_eq!(
        s,
        Step::Request(MirrorRequest {
            mirror: 0,
            url: "http://a.example/json/stations/search".to_string(),
            name: " smooth jazz ".to_string(),
            limit: 20,
            timeout_secs: 5,
        })
    );
    assert_eq!(RESULT_LIMIT, 20);
    assert_eq!(ATTEMPT_TIMEOUT_SECS, 5);
}

#[test]
fn next_request_targets_next_mirror() {
    let s = next_step("jazz", &three_mirrors(), 1, transport("t"));
    match s {
        Step::Request(r) => {
            assert_eq!(r.mirror, 2);
            assert_eq!(r.url, "http://c.example/json/stations/search");
            assert_eq!(r.name, "jazz");
        }
        Step::Done(_) => panic!("expected a request"),
    }
}

#[test]
fn empty_registry_returns_empty_list() {
    let (sent, result) = drive("jazz", &MirrorRegistry::new(vec![]), vec![]);
    assert_eq!(sent.len(), 0);
    assert_eq!(result, Ok(vec![]));
}

#[test]
fn single_mirror_failure_is_terminal() {
    let reg = MirrorRegistry::new(vec!["http://only.example".to_string()]);
    let (sent, result) = drive("jazz", &reg, vec![Outcome::Failed(Failure::Status("503".to_string()))]);
    assert_eq!(sent.len(), 1);
    assert_eq!(sent[0].url, "http://only.example/json/stations/search");
    assert_eq!(result, Err(SearchError::AllMirrorsFailed(Failure::Status("503".to_string()))));
}
