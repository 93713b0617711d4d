use bulb_toggle::exchange::{Action, Event, Phase, Toggle};
use bulb_toggle::front_door::{dispatch, reply_after, Dispatch, HttpReply};
use bulb_toggle::reply::ExchangeError;

/// How the simulated bulb answers a Get-State request.
enum Answer {
    /// With its current state.
    State,
    /// With these bytes.
    Bytes(&'static [u8]),
    /// Not at all.
    Silent,
}

/// A bulb that answers Get-State and applies Set-State commands.
struct Bulb {
    on: bool,
    answer: Answer,
    sent: Vec<String>,
}

impl Bulb {
    fn new(on: bool, answer: Answer) -> Bulb {
        Bulb { on, answer, sent: Vec::new() }
    }

    fn take(&mut self, datagram: &str) -> Event {
        self.sent.push(datagram.to_string());
        let v: serde_json::Value = serde_json::from_str(datagram).unwrap();
        if v["method"] == "setState" {
            self.on = v["params"]["state"].as_bool().unwrap();
        }
        Event::Done
    }

    fn reply(&self) -> Event {
        match self.answer {
            Answer::State => Event::Received(format!(r#"{{"result":{{"state":{}}}}}"#, self.on).into_bytes()),
            Answer::Bytes(b) => Event::Received(b.to_vec()),
            Answer::Silent => Event::TimedOut,
        }
    }
}

/// Runs one exchange against `bulb` and returns how it ended.
fn run(bulb: &mut Bulb) -> Result<bool, ExchangeError> {
    let mut t = Toggle::new();
    loop {
        let e = match t.action() {
            Action::Open => Event::Done,
            Action::Send(d) => bulb.take(&d),
            Action::Receive => bulb.reply(),
            Action::Stop => return t.outcome().unwrap(),
        };
        assert!(t.expects(&e));
        t.step(e);
    }
}

fn sent_commands(bulb: &Bulb) -> Vec<&String> {
    bulb.sent.iter().filter(|d| d.contains("setState")).collect()
}

#[test]
fn reported_on_commands_off_and_page_is_served() {
    assert_eq!(dispatch("/bulb"), Dispatch::RunToggle);
    let mut bulb = Bulb::new(true, Answer::Bytes(br#"{"result":{"state":true}}"#));
    let outcome = run(&mut bulb);
    assert_eq!(outcome, Ok(false));
    assert_eq!(
        bulb.sent,
        vec![
            r#"{"method":"getPilot"}"#.to_string(),
            r#"{"method":"setState","params":{"state":false}}"#.to_string(),
        ]
    );
    assert_eq!(reply_after(outcome), HttpReply { status: 200, with_page: true });
}

#[test]
fn reported_off_commands_on() {
    let mut bulb = Bulb::new(false, Answer::Bytes(br#"{"result":{"state":false}}"#));
    assert_eq!(run(&mut bulb), Ok(true));
    assert_eq!(bulb.sent[1], r#"{"method":"setState","params":{"state":true}}"#);
}

#[test]
fn command_is_inverse_of_each_reported_state() {
    for s in [false, true] {
        let mut bulb = Bulb::new(s, Answer::State);
        assert_eq!(run(&mut bulb), Ok(!s));
        assert_eq!(bulb.on, !s);
    }
}

#[test]
fn timeout_fails_without_command() {
    let mut bulb = Bulb::new(true, Answer::Silent);
    assert_eq!(run(&mut bulb), Err(ExchangeError::Timeout));
    assert!(sent_commands(&bulb).is_empty());
    assert_eq!(bulb.sent, vec![r#"{"method":"getPilot"}"#.to_string()]);
    assert!(bulb.on);
}

#[test]
fn missing_state_fails_without_command() {
    let mut bulb = Bulb::new(true, Answer::Bytes(br#"{"result":{}}"#));
    assert_eq!(run(&mut bulb), Err(ExchangeError::MissingState));
    assert!(sent_commands(&bulb).is_empty());
}

#[test]
fn malformed_reply_fails_without_command() {
    let mut bulb = Bulb::new(true, Answer::Bytes(br#"{"result":{"state":tr"#));
    assert_eq!(run(&mut bulb), Err(ExchangeError::Malformed));
    assert!(sent_commands(&bulb).is_empty());
}

#[test]
fn successive_toggles_alternate() {
    let mut bulb = Bulb::new(false, Answer::State);
    let mut seen = Vec::new();
    for _ in 0..6 {
        seen.push(run(&mut bulb).unwrap());
    }
    assert_eq!(seen, vec![true, false, true, false, true, false]);
    assert_eq!(sent_commands(&bulb).len(), 6);
}

#[test]
fn actions_of_a_smooth_exchange() {
    let mut t = Toggle::new();
    assert_eq!(t.phase, Phase::Opening);
    assert_eq!(t.action(), Action::Open);
    assert!(!t.is_finished());
    t.step(Event::Done);
    assert_eq!(t.action(), Action::Send(r#"{"method":"getPilot"}"#.to_string()));
    t.step(Event::Done);
    assert_eq!(t.action(), Action::Receive);
    assert_eq!(t.outcome(), None);
    t.step(Event::Received(br#"{"result":{"state":true}}"#.to_vec()));
    assert_eq!(t.phase, Phase::Commanding(false));
    assert_eq!(t.action(), Action::Send(r#"{"method":"setState","params":{"state":false}}"#.to_string()));
    t.step(Event::Done);
    assert_eq!(t.phase, Phase::Toggled(false));
    assert_eq!(t.action(), Action::Stop);
    assert!(t.is_finished());
    assert_eq!(t.outcome(), Some(Ok(false)));
}

#[test]
fn network_failures_end_the_exchange() {
    let mut open = Toggle::new();
    open.step(Event::Failed);
    assert_eq!(open.outcome(), Some(Err(ExchangeError::Network)));
    assert_eq!(open.action(), Action::Stop);

    let mut query = Toggle::new();
    query.step(Event::Done);
    query.step(Event::Failed);
    assert_eq!(query.phase, Phase::Failed(ExchangeError::Network));

    let mut receive = Toggle::new();
    receive.step(Event::Done);
    receive.step(Event::Done);
    receive.step(Event::Failed);
    assert_eq!(receive.outcome(), Some(Err(ExchangeError::Network)));

    let mut command = Toggle::new();
    command.step(Event::Done);
    command.step(Event::Done);
    command.step(Event::Received(br#"{"result":{"state":false}}"#.to_vec()));
    command.step(Event::Failed);
    assert_eq!(command.outcome(), Some(Err(ExchangeError::Network)));
}

#[test]
fn taking_a_reading_directly() {
    let mut t = Toggle { phase: Phase::AwaitingReply };
    t.take_reading(Ok(true));
    assert_eq!(t.phase, Phase::Commanding(false));
    let mut u = Toggle { phase: Phase::AwaitingReply };
    u.take_reading(Err(ExchangeError::MissingState));
    assert_eq!(u.outcome(), Some(Err(ExchangeError::MissingState)));
}

#[test]
fn events_each_phase_expects() {
    let t = Toggle::new();
    assert!(t.expects(&Event::Done));
    assert!(t.expects(&Event::Failed));
    assert!(!t.expects(&Event::TimedOut));
    assert!(!t.expects(&Event::Received(Vec::new())));
    let w = Toggle { phase: Phase::AwaitingReply };
    assert!(!w.expects(&Event::Done));
    assert!(w.expects(&Event::TimedOut));
    assert!(w.expects(&Event::Received(Vec::new())));
    let f = Toggle { phase: Phase::Toggled(true) };
    assert!(!f.expects(&Event::Done));
    assert!(!f.expects(&Event::Failed));
}
