use galahad_encoder::control_channel::ServerCommand;
use galahad_encoder::control_runtime::{ControlLink, LinkAction, LinkEvent, LinkPhase};

#[test]
fn commands_have_wire_names() {
    assert_eq!(ServerCommand::StartStream.action_name(), "start_stream");
    assert_eq!(ServerCommand::StopStream.action_name(), "stop_stream");
    assert_eq!(ServerCommand::RestartStream.action_name(), "restart_stream");
    assert_eq!(
        ServerCommand::SwitchQuality { preset: "x".into() }.action_name(),
        "switch_quality"
    );
    assert_eq!(ServerCommand::RequestLogUpload.action_name(), "request_log_upload");
    assert_eq!(
        ServerCommand::PushConfig { config: serde_json::Value::Null }.action_name(),
        "push_config"
    );
    assert_eq!(
        ServerCommand::unrecognized("{}", "missing field `action`").message(),
        "control channel error: unrecognized command '{}': missing field `action`"
    );
}

#[test]
fn links_back_off_until_they_connect() {
    let mut link = ControlLink::new();
    for wait in [500, 1000, 2000, 4000, 8000, 10_000, 10_000] {
        assert_eq!(link.step(LinkEvent::ConnectFailed), LinkAction::Sleep { millis: wait });
        assert_eq!(link.step(LinkEvent::Waited), LinkAction::Connect);
    }
    assert_eq!(link.step(LinkEvent::Connected), LinkAction::SendHello);
    assert_eq!(link.step(LinkEvent::Greeted), LinkAction::Serve);
    for taken in
        [LinkEvent::Sent, LinkEvent::Unsendable, LinkEvent::Unreadable, LinkEvent::OtherMessage]
    {
        assert_eq!(link.step(taken), LinkAction::Serve);
    }
    for lost in [LinkEvent::SendFailed, LinkEvent::Closed, LinkEvent::Broken] {
        assert_eq!(link.step(lost), LinkAction::Sleep { millis: 500 });
        assert_eq!(link.step(LinkEvent::Waited), LinkAction::Connect);
        assert_eq!(link.step(LinkEvent::Connected), LinkAction::SendHello);
        assert_eq!(link.step(LinkEvent::Greeted), LinkAction::Serve);
    }
    assert_eq!(link.step(LinkEvent::OutboundDropped), LinkAction::Close);
    assert_eq!(link.phase, LinkPhase::Done);
    assert_eq!(link.step(LinkEvent::Waited), LinkAction::Ignore);
}

#[test]
fn a_failed_hello_is_waited_out() {
    let mut link = ControlLink::new();
    for _ in 0..3 {
        assert_eq!(link.step(LinkEvent::Connected), LinkAction::SendHello);
        assert_eq!(link.step(LinkEvent::GreetFailed), LinkAction::Sleep { millis: 500 });
        assert_eq!((link.phase, link.attempt), (LinkPhase::Waiting, 1));
        assert_eq!(link.step(LinkEvent::Waited), LinkAction::Connect);
    }
    assert_eq!(link.step(LinkEvent::ConnectFailed), LinkAction::Sleep { millis: 1000 });
}

#[test]
fn commands_are_handed_on_one_by_one() {
    let mut link = ControlLink::new();
    assert_eq!(link.step(LinkEvent::Command { serial: 9 }), LinkAction::Ignore);
    link.step(LinkEvent::Connected);
    link.step(LinkEvent::Greeted);
    let mut handed = vec![];
    for serial in [1, 2] {
        match link.step(LinkEvent::Command { serial }) {
            LinkAction::HandOn { serial } => handed.push(serial),
            other => panic!("{other:?}"),
        }
        assert_eq!(link.phase, LinkPhase::Handling);
        assert_eq!(link.step(LinkEvent::Command { serial: 7 }), LinkAction::Ignore);
        assert_eq!(link.step(LinkEvent::Handled), LinkAction::Serve);
        assert_eq!(link.step(LinkEvent::Unreadable), LinkAction::Serve);
    }
    assert_eq!(handed, vec![1, 2]);
}
