use statime_embassy_net::error::{BindError, MulticastError, RunError};
use statime_embassy_net::net::{Group, Ipv4Addr};
use statime_embassy_net::port_io::PortIo;
use statime_embassy_net::setup::{
    JoinedGroups, Setup, SetupOutcome, SetupReply, SetupStep, SocketKind,
};
use statime_embassy_net::time::EmbassyDuration;

const PRIMARY: Ipv4Addr = Ipv4Addr { a: 224, b: 0, c: 1, d: 129 };
const LINK_LOCAL: Ipv4Addr = Ipv4Addr { a: 224, b: 0, c: 0, d: 107 };

fn go_on(setup: Setup, step: SetupStep, reply: SetupReply) -> Setup {
    assert_eq!(setup.step, step);
    match setup.advance(reply) {
        SetupOutcome::Next(next) => next,
        SetupOutcome::Failed { error, .. } => panic!("{error:?}"),
    }
}

fn fail(setup: Setup, step: SetupStep, reply: SetupReply) -> (RunError, Vec<Ipv4Addr>) {
    assert_eq!(setup.step, step);
    match setup.advance(reply) {
        SetupOutcome::Next(next) => panic!("{next:?}"),
        SetupOutcome::Failed { error, leave } => (error, leave),
    }
}

fn bound() -> Setup {
    let mut setup = Setup::new();
    for step in [
        SetupStep::OpenSocket(SocketKind::Event),
        SetupStep::OpenSocket(SocketKind::General),
        SetupStep::BindInterface(SocketKind::Event),
        SetupStep::BindInterface(SocketKind::General),
        SetupStep::BindPort(SocketKind::Event),
        SetupStep::BindPort(SocketKind::General),
    ] {
        setup = go_on(setup, step, SetupReply::Done);
    }
    setup
}

#[test]
fn missing_groups_are_joined_and_left() {
    let setup = bound();
    let setup = go_on(setup, SetupStep::CheckGroup(Group::Primary), SetupReply::GroupPresent(false));
    let setup = go_on(setup, SetupStep::JoinGroup(Group::Primary), SetupReply::Done);
    let setup = go_on(setup, SetupStep::CheckGroup(Group::LinkLocal), SetupReply::GroupPresent(false));
    let setup = go_on(setup, SetupStep::JoinGroup(Group::LinkLocal), SetupReply::Done);
    assert_eq!(setup.step, SetupStep::Finished);
    let io = PortIo::new(setup, EmbassyDuration { ticks: 1 });
    assert_eq!(io.groups_to_leave(), vec![PRIMARY, LINK_LOCAL]);
}

#[test]
fn present_groups_are_not_left() {
    let setup = bound();
    let setup = go_on(setup, SetupStep::CheckGroup(Group::Primary), SetupReply::GroupPresent(true));
    let setup = go_on(setup, SetupStep::CheckGroup(Group::LinkLocal), SetupReply::GroupPresent(true));
    assert_eq!(setup.step, SetupStep::Finished);
    assert_eq!(setup.joined, JoinedGroups { primary: false, link_local: false });
    let io = PortIo::new(setup, EmbassyDuration { ticks: 1 });
    assert_eq!(io.groups_to_leave(), vec![]);
}

#[test]
fn socket_shortage_names_the_port() {
    let setup = Setup::new();
    assert_eq!(
        fail(setup, SetupStep::OpenSocket(SocketKind::Event), SetupReply::NoSocket),
        (RunError::Socket { port: 319 }, vec![])
    );
    let setup = go_on(setup, SetupStep::OpenSocket(SocketKind::Event), SetupReply::Done);
    assert_eq!(
        fail(setup, SetupStep::OpenSocket(SocketKind::General), SetupReply::NoSocket),
        (RunError::Socket { port: 320 }, vec![])
    );
}

#[test]
fn bind_failures_name_the_port() {
    let mut setup = Setup::new();
    for (step, port) in [
        (SetupStep::BindInterface(SocketKind::Event), 319),
        (SetupStep::BindInterface(SocketKind::General), 320),
        (SetupStep::BindPort(SocketKind::Event), 319),
        (SetupStep::BindPort(SocketKind::General), 320),
    ] {
        while setup.step != step {
            let here = setup.step;
            setup = go_on(setup, here, SetupReply::Done);
        }
        assert_eq!(
            fail(setup, step, SetupReply::BindFailed(BindError::NoRoute)),
            (
                RunError::Bind {
                    port,
                    source: BindError::NoRoute,
                },
                vec![]
            )
        );
    }
}

#[test]
fn failed_join_leaves_what_was_joined() {
    let setup = bound();
    let setup = go_on(setup, SetupStep::CheckGroup(Group::Primary), SetupReply::GroupPresent(false));
    assert_eq!(
        fail(
            setup,
            SetupStep::JoinGroup(Group::Primary),
            SetupReply::JoinFailed(MulticastError::Unaddressable)
        ),
        (
            RunError::Multicast {
                address: PRIMARY,
                source: MulticastError::Unaddressable,
            },
            vec![]
        )
    );
    let setup = go_on(setup, SetupStep::JoinGroup(Group::Primary), SetupReply::Done);
    let setup = go_on(setup, SetupStep::CheckGroup(Group::LinkLocal), SetupReply::GroupPresent(false));
    assert_eq!(
        fail(
            setup,
            SetupStep::JoinGroup(Group::LinkLocal),
            SetupReply::JoinFailed(MulticastError::GroupTableFull)
        ),
        (
            RunError::Multicast {
                address: LINK_LOCAL,
                source: MulticastError::GroupTableFull,
            },
            vec![PRIMARY]
        )
    );
}
