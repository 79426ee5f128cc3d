use ip_locator::controller::{Action, Controller, Event, Phase};
use ip_locator::degrees::Degrees;
use ip_locator::ip_fetcher::{FetchError, FetchState, IpDetails, IpFetcher, Reply};
use ip_locator::screen::Screen;
use ip_locator::session::Delivery;
use ip_locator::worker::{Worker, WorkerAction, WorkerEvent};

fn micro(degrees: f64) -> i64 {
    (degrees * 1_000_000.0).round() as i64
}

fn upstream_answer(status: &str) -> IpDetails {
    IpDetails {
        autonomous_system: String::from("AS15169 Google LLC"),
        city: String::from("Mountain View"),
        country: String::from("United States"),
        country_code: String::from("US"),
        isp: String::from("Google LLC"),
        lat: Degrees::from_micro(micro(37.4)),
        lon: Degrees::from_micro(micro(-122.1)),
        org: String::from("Google Public DNS"),
        query: String::from("8.8.8.8"),
        region: String::from("CA"),
        region_name: String::from("California"),
        status: String::from(status),
        timezone: String::from("America/Los_Angeles"),
        zip: String::from("94043"),
    }
}

/// Runs worker and session as a program would, with `reply` standing for the
/// service; returns the two frames drawn, the session at its end, and the
/// number of reports that the worker sent.
fn play(target: &str, reply: Reply) -> (Vec<Screen>, Controller, usize) {
    let mut sent = Vec::new();
    let mut reply = Some(reply);
    let (mut worker, mut due) = Worker::new(String::from(target)).step(WorkerEvent::Start);
    loop {
        match due {
            WorkerAction::Request(url) => {
                assert_eq!(url, format!("http://ip-api.com/json/{}", target));
                let event = WorkerEvent::Replied(reply.take().unwrap());
                (worker, due) = worker.step(event);
            }
            WorkerAction::Send(report) => {
                sent.push(report);
                (worker, due) = worker.step(WorkerEvent::Start);
            }
            WorkerAction::Idle | WorkerAction::Halt => break,
        }
    }
    let reports = sent.len();
    let mut frames = Vec::new();
    let mut controller = Controller::new();
    loop {
        let event = match controller.action() {
            Action::StartWorker | Action::AcquireTerminal | Action::ReleaseTerminal => Event::Done,
            Action::Draw => {
                frames.push(controller.frame());
                Event::Done
            }
            Action::AwaitWorker => match sent.pop() {
                Some(report) => Event::Delivered(Delivery::Report(report)),
                None => Event::Delivered(Delivery::Closed),
            },
            Action::ReadInput => Event::Key,
            Action::Exit { code } => {
                assert_eq!(code, 0);
                break;
            }
        };
        controller = controller.advance(event);
    }
    (frames, controller, reports)
}

#[test]
fn a_lookup_of_a_public_resolver_succeeds() {
    let reply = Reply::Response { code: 200, body: Some(upstream_answer("success")) };
    let (frames, controller, reports) = play("8.8.8.8", reply);
    assert_eq!(reports, 1);
    assert_eq!(controller.phase(), Phase::Finished);
    assert_eq!(controller.state().status(), FetchState::Success);
    assert_eq!(frames.len(), 2);
    assert_eq!(frames[0].details.lines[1], "  Fetching details");
    assert!(frames[0].map.overlay.is_empty());
    let fields: Vec<&String> = frames[1].details.lines.iter().skip(1).step_by(2).collect();
    assert_eq!(fields.len(), 12);
    assert_eq!(fields[3], "  Country: United States");
    assert_eq!(frames[1].details.lines[7], "  Country: United States");
    assert_eq!(fields[0], "  IP Address: 8.8.8.8");
    assert_eq!(fields[1], "  Lattitude: 37.4");
    assert_eq!(fields[2], "  Longittude: -122.1");
    assert_eq!(frames[1].map.overlay.len(), 2);
    assert_eq!(frames[1].map.overlay[0].y1.micro, 37_400_000);
    assert_eq!(frames[1].map.overlay[1].x1.micro, -122_100_000);
}

#[test]
fn a_server_error_ends_in_failure() {
    let (frames, controller, reports) = play("8.8.8.8", Reply::Response { code: 500, body: None });
    assert_eq!(reports, 1);
    assert_eq!(controller.state().status(), FetchState::Failure);
    assert!(!controller.has_failed());
    assert_eq!(frames.len(), 2);
    assert_eq!(
        frames[1].details.lines,
        vec![String::new(), String::from("  Error while fetching details")]
    );
    assert!(frames[1].map.overlay.is_empty());
    assert_eq!(
        IpFetcher::fetch(Reply::Response { code: 500, body: None }),
        Err(FetchError::HttpStatus { code: 500 })
    );
}

#[test]
fn a_rejected_query_ends_in_failure_despite_its_status_code() {
    let reply = Reply::Response { code: 200, body: Some(upstream_answer("fail")) };
    let (frames, controller, reports) = play("no.such.host", reply);
    assert_eq!(reports, 1);
    assert_eq!(controller.state().status(), FetchState::Failure);
    assert_eq!(frames[1].details.lines[1], "  Error while fetching details");
    assert!(frames[1].map.overlay.is_empty());
    assert_eq!(
        IpFetcher::fetch(Reply::Response { code: 200, body: Some(upstream_answer("fail")) }),
        Err(FetchError::Rejected)
    );
}

#[test]
fn an_unreachable_service_ends_in_failure() {
    let (frames, controller, reports) = play("", Reply::NoResponse);
    assert_eq!(reports, 1);
    assert_eq!(controller.state().status(), FetchState::Failure);
    assert_eq!(frames[1].details.lines[1], "  Error while fetching details");
}
