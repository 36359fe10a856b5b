//! Opening the PTP sockets and joining the PTP multicast groups, step by step.
//!
//! The caller performs the step that [`Setup::step`] names and hands the outcome to
//! [`Setup::advance`], until there is nothing left to do or a step has failed.

use vstd::prelude::*;

use crate::error::{BindError, MulticastError, RunError};
use crate::net::{Group, Ipv4Addr, EVENT_PORT, GENERAL_PORT};

verus! {

/// One of the two PTP sockets.
#[derive(Clone, Copy, Debug, PartialEq, Eq, Structural)]
pub enum SocketKind {
    /// Socket of event messages.
    Event,
    /// Socket of general messages.
    General,
}

impl SocketKind {
    /// UDP port of the socket.
    pub open spec fn spec_port(self) -> u16 {
        match self {
            SocketKind::Event => EVENT_PORT,
            SocketKind::General => GENERAL_PORT,
        }
    }

    /// UDP port of the socket.
    pub fn port(self) -> (r: u16)
        ensures
            r == self.spec_port(),
    {
        match self {
            SocketKind::Event => EVENT_PORT,
            SocketKind::General => GENERAL_PORT,
        }
    }
}

/// What to do next.
#[derive(Clone, Copy, Debug, PartialEq, Eq, Structural)]
pub enum SetupStep {
    /// Get a UDP socket.
    OpenSocket(SocketKind),
    /// Tie the socket to the interface.
    BindInterface(SocketKind),
    /// Bind the socket to its UDP port.
    BindPort(SocketKind),
    /// See whether the interface already is in the group.
    CheckGroup(Group),
    /// Join the group.
    JoinGroup(Group),
    /// Nothing: the sockets can be used.
    Finished,
}

/// How a step went.
#[derive(Clone, Copy, Debug, PartialEq, Eq, Structural)]
pub enum SetupReply {
    /// The step is done.
    Done,
    /// There is no free socket.
    NoSocket,
    /// The socket could not be bound.
    BindFailed(BindError),
    /// Whether the interface already is in the group.
    GroupPresent(bool),
    /// The group could not be joined.
    JoinFailed(MulticastError),
}

/// The groups that were joined here and are to be left in the end.
#[derive(Clone, Copy, Debug, PartialEq, Eq, Structural)]
pub struct JoinedGroups {
    /// Whether the primary group is one of them.
    pub primary: bool,
    /// Whether the link-local group is one of them.
    pub link_local: bool,
}

impl JoinedGroups {
    /// The groups, in the order in which they are joined and left.
    pub open spec fn groups(self) -> Seq<Group> {
        (if self.primary {
            seq![Group::Primary]
        } else {
            Seq::empty()
        }) + (if self.link_local {
            seq![Group::LinkLocal]
        } else {
            Seq::empty()
        })
    }

    /// The groups with one more.
    pub open spec fn with(self, group: Group) -> JoinedGroups {
        match group {
            Group::Primary => JoinedGroups { primary: true, ..self },
            Group::LinkLocal => JoinedGroups { link_local: true, ..self },
        }
    }

    /// The addresses of the groups, in the order in which they are left.
    pub fn addresses(&self) -> (r: Vec<Ipv4Addr>)
        ensures
            r@ == self.groups().map_values(|group: Group| group.spec_address()),
    {
        let mut r: Vec<Ipv4Addr> = Vec::new();
        if self.primary {
            r.push(Group::Primary.address());
        }
        if self.link_local {
            r.push(Group::LinkLocal.address());
        }
        assert(r@ =~= self.groups().map_values(|group: Group| group.spec_address()));
        r
    }
}

/// How far the setup has come.
#[derive(Clone, Copy, Debug, PartialEq, Eq, Structural)]
pub struct Setup {
    /// What to do next.
    pub step: SetupStep,
    /// The groups that were joined so far.
    pub joined: JoinedGroups,
}

/// What the outcome of a step leads to.
#[derive(Debug)]
pub enum SetupOutcome {
    /// The setup goes on.
    Next(Setup),
    /// The setup has failed.
    Failed {
        /// Why it has failed.
        error: RunError,
        /// The groups that were joined and are to be left again.
        leave: Vec<Ipv4Addr>,
    },
}

/// Whether `reply` is an outcome that `step` can have.
pub open spec fn reply_fits(step: SetupStep, reply: SetupReply) -> bool {
    match step {
        SetupStep::OpenSocket(_) => reply is Done || reply is NoSocket,
        SetupStep::BindInterface(_) => reply is Done || reply is BindFailed,
        SetupStep::BindPort(_) => reply is Done || reply is BindFailed,
        SetupStep::CheckGroup(_) => reply is GroupPresent,
        SetupStep::JoinGroup(_) => reply is Done || reply is JoinFailed,
        SetupStep::Finished => false,
    }
}

/// The error with which the setup ends, if `reply` says that `step` failed. It names
/// the port or the address that the step was about.
pub open spec fn failure(step: SetupStep, reply: SetupReply) -> Option<RunError> {
    match (step, reply) {
        (SetupStep::OpenSocket(socket), SetupReply::NoSocket) => Some(
            RunError::Socket { port: socket.spec_port() },
        ),
        (SetupStep::BindInterface(socket), SetupReply::BindFailed(source)) => Some(
            RunError::Bind { port: socket.spec_port(), source },
        ),
        (SetupStep::BindPort(socket), SetupReply::BindFailed(source)) => Some(
            RunError::Bind { port: socket.spec_port(), source },
        ),
        (SetupStep::JoinGroup(group), SetupReply::JoinFailed(source)) => Some(
            RunError::Multicast { address: group.spec_address(), source },
        ),
        _ => None,
    }
}

/// The step after `step` went well. Both sockets are opened, then tied to the
/// interface, then bound; then each group is joined unless the interface is in it.
pub open spec fn next_step(step: SetupStep, reply: SetupReply) -> SetupStep {
    match step {
        SetupStep::OpenSocket(SocketKind::Event) => SetupStep::OpenSocket(SocketKind::General),
        SetupStep::OpenSocket(SocketKind::General) => SetupStep::BindInterface(SocketKind::Event),
        SetupStep::BindInterface(SocketKind::Event) => SetupStep::BindInterface(
            SocketKind::General,
        ),
        SetupStep::BindInterface(SocketKind::General) => SetupStep::BindPort(SocketKind::Event),
        SetupStep::BindPort(SocketKind::Event) => SetupStep::BindPort(SocketKind::General),
        SetupStep::BindPort(SocketKind::General) => SetupStep::CheckGroup(Group::Primary),
        SetupStep::CheckGroup(group) => if reply == SetupReply::GroupPresent(true) {
            after_group(group)
        } else {
            SetupStep::JoinGroup(group)
        },
        SetupStep::JoinGroup(group) => after_group(group),
        SetupStep::Finished => SetupStep::Finished,
    }
}

/// The step after the interface is known to be in `group`.
pub open spec fn after_group(group: Group) -> SetupStep {
    match group {
        Group::Primary => SetupStep::CheckGroup(Group::LinkLocal),
        Group::LinkLocal => SetupStep::Finished,
    }
}

impl Setup {
    /// The setup before anything was done.
    pub open spec fn start() -> Setup {
        Setup {
            step: SetupStep::OpenSocket(SocketKind::Event),
            joined: JoinedGroups { primary: false, link_local: false },
        }
    }

    /// The setup after its step went well.
    pub open spec fn after(self, reply: SetupReply) -> Setup {
        Setup {
            step: next_step(self.step, reply),
            joined: match self.step {
                SetupStep::JoinGroup(group) => self.joined.with(group),
                _ => self.joined,
            },
        }
    }

    /// A setup that begins with the socket of event messages.
    pub fn new() -> (r: Setup)
        ensures
            r == Self::start(),
    {
        Setup {
            step: SetupStep::OpenSocket(SocketKind::Event),
            joined: JoinedGroups { primary: false, link_local: false },
        }
    }

    /// Takes the outcome of the step that was due: goes on to the next step, or ends
    /// with the error and the groups that are to be left again.
    pub fn advance(self, reply: SetupReply) -> (r: SetupOutcome)
        requires
            reply_fits(self.step, reply),
        ensures
            match failure(self.step, reply) {
                Some(error) => r is Failed && r->error == error && r->leave@
                    == self.joined.groups().map_values(|group: Group| group.spec_address()),
                None => r is Next && r->Next_0 == self.after(reply),
            },
    {
        match self.step {
            SetupStep::OpenSocket(socket) => match reply {
                SetupReply::NoSocket => self.fail(RunError::Socket { port: socket.port() }),
                _ => match socket {
                    SocketKind::Event => self.go_to(SetupStep::OpenSocket(SocketKind::General)),
                    SocketKind::General => self.go_to(SetupStep::BindInterface(SocketKind::Event)),
                },
            },
            SetupStep::BindInterface(socket) => match reply {
                SetupReply::BindFailed(source) => self.fail(
                    RunError::Bind { port: socket.port(), source },
                ),
                _ => match socket {
                    SocketKind::Event => self.go_to(SetupStep::BindInterface(SocketKind::General)),
                    SocketKind::General => self.go_to(SetupStep::BindPort(SocketKind::Event)),
                },
            },
            SetupStep::BindPort(socket) => match reply {
                SetupReply::BindFailed(source) => self.fail(
                    RunError::Bind { port: socket.port(), source },
                ),
                _ => match socket {
                    SocketKind::Event => self.go_to(SetupStep::BindPort(SocketKind::General)),
                    SocketKind::General => self.go_to(SetupStep::CheckGroup(Group::Primary)),
                },
            },
            SetupStep::CheckGroup(group) => match reply {
                SetupReply::GroupPresent(true) => self.go_past(group),
                _ => self.go_to(SetupStep::JoinGroup(group)),
            },
            SetupStep::JoinGroup(group) => match reply {
                SetupReply::JoinFailed(source) => self.fail(
                    RunError::Multicast { address: group.address(), source },
                ),
                _ => {
                    let mut joined = self.joined;
                    match group {
                        Group::Primary => {
                            joined.primary = true;
                        },
                        Group::LinkLocal => {
                            joined.link_local = true;
                        },
                    }
                    Setup { step: self.step, joined }.go_past(group)
                },
            },
            SetupStep::Finished => SetupOutcome::Next(self),
        }
    }

    /// Ends the setup with an error.
    fn fail(self, error: RunError) -> (r: SetupOutcome)
        ensures
            r is Failed,
            r->error == error,
            r->leave@ == self.joined.groups().map_values(|group: Group| group.spec_address()),
    {
        SetupOutcome::Failed { error, leave: self.joined.addresses() }
    }

    /// Goes on with another step.
    fn go_to(self, step: SetupStep) -> (r: SetupOutcome)
        ensures
            r is Next,
            r->Next_0 == (Setup { step, joined: self.joined }),
    {
        SetupOutcome::Next(Setup { step, joined: self.joined })
    }

    /// Goes on with what follows a group.
    fn go_past(self, group: Group) -> (r: SetupOutcome)
        ensures
            r is Next,
            r->Next_0 == (Setup { step: after_group(group), joined: self.joined }),
    {
        match group {
            Group::Primary => self.go_to(SetupStep::CheckGroup(Group::LinkLocal)),
            Group::LinkLocal => self.go_to(SetupStep::Finished),
        }
    }
}

/// The setup after a series of steps that went well, with these outcomes.
pub open spec fn setup_after(replies: Seq<SetupReply>) -> Setup
    decreases replies.len(),
{
    if replies.len() == 0 {
        Setup::start()
    } else {
        setup_after(replies.drop_last()).after(replies.last())
    }
}

/// Whether these are outcomes of a series of steps that went well.
pub open spec fn went_well(replies: Seq<SetupReply>) -> bool
    decreases replies.len(),
{
    replies.len() == 0 || {
        let step = setup_after(replies.drop_last()).step;
        &&& went_well(replies.drop_last())
        &&& reply_fits(step, replies.last())
        &&& failure(step, replies.last()) is None
    }
}

/// The groups that were joined in a series of steps.
pub open spec fn joins(replies: Seq<SetupReply>) -> Seq<Group>
    decreases replies.len(),
{
    if replies.len() == 0 {
        Seq::empty()
    } else {
        let earlier = joins(replies.drop_last());
        match setup_after(replies.drop_last()).step {
            SetupStep::JoinGroup(group) => earlier.push(group),
            _ => earlier,
        }
    }
}

/// Number of steps that are left at most.
pub open spec fn steps_left(step: SetupStep) -> nat {
    match step {
        SetupStep::OpenSocket(SocketKind::Event) => 10,
        SetupStep::OpenSocket(SocketKind::General) => 9,
        SetupStep::BindInterface(SocketKind::Event) => 8,
        SetupStep::BindInterface(SocketKind::General) => 7,
        SetupStep::BindPort(SocketKind::Event) => 6,
        SetupStep::BindPort(SocketKind::General) => 5,
        SetupStep::CheckGroup(Group::Primary) => 4,
        SetupStep::JoinGroup(Group::Primary) => 3,
        SetupStep::CheckGroup(Group::LinkLocal) => 2,
        SetupStep::JoinGroup(Group::LinkLocal) => 1,
        SetupStep::Finished => 0,
    }
}

/// Every step that goes well brings the setup closer to its end.
pub proof fn setup_makes_progress(setup: Setup, reply: SetupReply)
    requires
        reply_fits(setup.step, reply),
        failure(setup.step, reply) is None,
    ensures
        steps_left(setup.after(reply).step) < steps_left(setup.step),
{
}

/// The groups that are to be left, after a failure or in the end, are exactly those
/// that the setup joined: a group in which the interface already was is not left.
pub proof fn only_joined_groups_are_left(replies: Seq<SetupReply>)
    requires
        went_well(replies),
    ensures
        setup_after(replies).joined.groups() == joins(replies),
{
    lemma_joined(replies);
}

/// The groups on record are those that were joined, each before the steps for the
/// next group.
proof fn lemma_joined(replies: Seq<SetupReply>)
    requires
        went_well(replies),
    ensures
        setup_after(replies).joined.groups() == joins(replies),
        setup_after(replies).joined.primary ==> steps_left(setup_after(replies).step) <= 2,
        setup_after(replies).joined.link_local ==> setup_after(replies).step is Finished,
    decreases replies.len(),
{
    if replies.len() > 0 {
        lemma_joined(replies.drop_last());
    }
    assert(setup_after(replies).joined.groups() =~= joins(replies));
}

/// Whether the interface is in the groups beforehand is all that a setup without
/// failures depends on: it ends after the sockets are open, tied to the interface
/// and bound, having joined exactly the groups that were missing.
pub proof fn setup_joins_the_missing_groups(primary_present: bool, link_local_present: bool)
    ensures
        ({
            let sockets = seq![
                SetupReply::Done,
                SetupReply::Done,
                SetupReply::Done,
                SetupReply::Done,
                SetupReply::Done,
                SetupReply::Done,
            ];
            let primary = if primary_present {
                seq![SetupReply::GroupPresent(true)]
            } else {
                seq![SetupReply::GroupPresent(false), SetupReply::Done]
            };
            let link_local = if link_local_present {
                seq![SetupReply::GroupPresent(true)]
            } else {
                seq![SetupReply::GroupPresent(false), SetupReply::Done]
            };
            let replies = sockets + primary + link_local;
            &&& went_well(replies)
            &&& setup_after(replies).step is Finished
            &&& setup_after(replies).joined == (JoinedGroups {
                primary: !primary_present,
                link_local: !link_local_present,
            })
        }),
{
    let s0 = Seq::<SetupReply>::empty();
    let s1 = s0.push(SetupReply::Done);
    let s2 = s1.push(SetupReply::Done);
    let s3 = s2.push(SetupReply::Done);
    let s4 = s3.push(SetupReply::Done);
    let s5 = s4.push(SetupReply::Done);
    let s6 = s5.push(SetupReply::Done);
    lemma_push(s0, SetupReply::Done);
    lemma_push(s1, SetupReply::Done);
    lemma_push(s2, SetupReply::Done);
    lemma_push(s3, SetupReply::Done);
    lemma_push(s4, SetupReply::Done);
    lemma_push(s5, SetupReply::Done);
    let s7 = s6.push(SetupReply::GroupPresent(primary_present));
    lemma_push(s6, SetupReply::GroupPresent(primary_present));
    let s8 = if primary_present {
        s7
    } else {
        s7.push(SetupReply::Done)
    };
    if !primary_present {
        lemma_push(s7, SetupReply::Done);
    }
    let s9 = s8.push(SetupReply::GroupPresent(link_local_present));
    lemma_push(s8, SetupReply::GroupPresent(link_local_present));
    let s10 = if link_local_present {
        s9
    } else {
        s9.push(SetupReply::Done)
    };
    if !link_local_present {
        lemma_push(s9, SetupReply::Done);
    }
    let sockets = seq![
        SetupReply::Done,
        SetupReply::Done,
        SetupReply::Done,
        SetupReply::Done,
        SetupReply::Done,
        SetupReply::Done,
    ];
    let primary = if primary_present {
        seq![SetupReply::GroupPresent(true)]
    } else {
        seq![SetupReply::GroupPresent(false), SetupReply::Done]
    };
    let link_local = if link_local_present {
        seq![SetupReply::GroupPresent(true)]
    } else {
        seq![SetupReply::GroupPresent(false), SetupReply::Done]
    };
    assert(sockets + primary + link_local =~= s10);
}

/// One more step.
proof fn lemma_push(replies: Seq<SetupReply>, reply: SetupReply)
    ensures
        setup_after(replies.push(reply)) == setup_after(replies).after(reply),
        went_well(replies) && reply_fits(setup_after(replies).step, reply) && failure(
            setup_after(replies).step,
            reply,
        ) is None ==> went_well(replies.push(reply)),
{
    assert(replies.push(reply).drop_last() =~= replies);
}

/// Event messages have UDP port 319 and general messages have UDP port 320.
pub proof fn sockets_have_the_ports_of_ptp(socket: SocketKind, r: u16)
    requires
        call_ensures(SocketKind::port, (socket,), r),
    ensures
        socket is Event ==> r == 319,
        socket is General ==> r == 320,
{
}

/// The groups to leave are 224.0.1.129 if the primary group was joined, and then
/// 224.0.0.107 if the link-local group was.
pub proof fn joined_groups_are_left(joined: JoinedGroups, r: Vec<Ipv4Addr>)
    requires
        call_ensures(JoinedGroups::addresses, (&joined,), r),
    ensures
        r@.len() == (if joined.primary {
            1int
        } else {
            0
        }) + (if joined.link_local {
            1int
        } else {
            0
        }),
        joined.primary ==> r@[0] == (Ipv4Addr { a: 224, b: 0, c: 1, d: 129 }),
        joined.link_local ==> r@[r@.len() - 1] == (Ipv4Addr { a: 224, b: 0, c: 0, d: 107 }),
{
}

/// A setup begins with the socket of event messages and has joined no group.
pub proof fn setup_begins_with_the_event_socket(r: Setup)
    requires
        call_ensures(Setup::new, (), r),
    ensures
        r.step == SetupStep::OpenSocket(SocketKind::Event),
        !r.joined.primary,
        !r.joined.link_local,
{
}

/// A step that fails ends the setup, and only such a step does. The error is the
/// stack's own, with the port or the address that the step was about, and the groups
/// that were joined so far are to be left.
pub proof fn failed_step_ends_the_setup(setup: Setup, reply: SetupReply, r: SetupOutcome)
    requires
        reply_fits(setup.step, reply),
        call_ensures(Setup::advance, (setup, reply), r),
    ensures
        r is Failed <==> reply is NoSocket || reply is BindFailed || reply is JoinFailed,
        reply is NoSocket ==> r->error == (RunError::Socket {
            port: if setup.step == SetupStep::OpenSocket(SocketKind::Event) {
                319
            } else {
                320
            },
        }),
        reply matches SetupReply::BindFailed(source) ==> r->error == (RunError::Bind {
            port: if setup.step == SetupStep::BindInterface(SocketKind::Event) || setup.step
                == SetupStep::BindPort(SocketKind::Event) {
                319
            } else {
                320
            },
            source,
        }),
        reply matches SetupReply::JoinFailed(source) ==> r->error == (RunError::Multicast {
            address: if setup.step == SetupStep::JoinGroup(Group::Primary) {
                Ipv4Addr { a: 224, b: 0, c: 1, d: 129 }
            } else {
                Ipv4Addr { a: 224, b: 0, c: 0, d: 107 }
            },
            source,
        }),
        r is Failed ==> r->leave@ == (if setup.joined.primary {
            seq![Ipv4Addr { a: 224, b: 0, c: 1, d: 129 }]
        } else {
            Seq::empty()
        }) + (if setup.joined.link_local {
            seq![Ipv4Addr { a: 224, b: 0, c: 0, d: 107 }]
        } else {
            Seq::empty()
        }),
{
    if r is Failed {
        assert(r->leave@ =~= (if setup.joined.primary {
            seq![Ipv4Addr { a: 224, b: 0, c: 1, d: 129 }]
        } else {
            Seq::empty()
        }) + (if setup.joined.link_local {
            seq![Ipv4Addr { a: 224, b: 0, c: 0, d: 107 }]
        } else {
            Seq::empty()
        }));
    }
}

/// A step that goes well leads to the next: the sockets are opened, tied to the
/// interface and bound, each time the one of event messages first; then a group is
/// joined exactly if the interface is not in it, the primary group first. A group is
/// on record as joined once it was joined, and no other way.
pub proof fn steps_follow_each_other(setup: Setup, reply: SetupReply, r: SetupOutcome)
    requires
        reply_fits(setup.step, reply),
        call_ensures(Setup::advance, (setup, reply), r),
        r is Next,
    ensures
        ({
            let next = r->Next_0;
            let present = reply == SetupReply::GroupPresent(true);
            let past_primary = setup.step == SetupStep::JoinGroup(Group::Primary) || setup.step
                == SetupStep::CheckGroup(Group::Primary) && present;
            let past_link_local = setup.step == SetupStep::JoinGroup(Group::LinkLocal)
                || setup.step == SetupStep::CheckGroup(Group::LinkLocal) && present;
            &&& setup.step == SetupStep::OpenSocket(SocketKind::Event) <==> next.step
                == SetupStep::OpenSocket(SocketKind::General)
            &&& setup.step == SetupStep::OpenSocket(SocketKind::General) <==> next.step
                == SetupStep::BindInterface(SocketKind::Event)
            &&& setup.step == SetupStep::BindInterface(SocketKind::Event) <==> next.step
                == SetupStep::BindInterface(SocketKind::General)
            &&& setup.step == SetupStep::BindInterface(SocketKind::General) <==> next.step
                == SetupStep::BindPort(SocketKind::Event)
            &&& setup.step == SetupStep::BindPort(SocketKind::Event) <==> next.step
                == SetupStep::BindPort(SocketKind::General)
            &&& setup.step == SetupStep::BindPort(SocketKind::General) <==> next.step
                == SetupStep::CheckGroup(Group::Primary)
            &&& setup.step == SetupStep::CheckGroup(Group::Primary) && !present <==> next.step
                == SetupStep::JoinGroup(Group::Primary)
            &&& past_primary <==> next.step == SetupStep::CheckGroup(Group::LinkLocal)
            &&& setup.step == SetupStep::CheckGroup(Group::LinkLocal) && !present <==> next.step
                == SetupStep::JoinGroup(Group::LinkLocal)
            &&& past_link_local <==> next.step is Finished
            &&& next.joined.primary <==> setup.joined.primary || setup.step
                == SetupStep::JoinGroup(Group::Primary)
            &&& next.joined.link_local <==> setup.joined.link_local || setup.step
                == SetupStep::JoinGroup(Group::LinkLocal)
        }),
{
}

/// A step can fail only with an error of its own kind; a group is there or not, and is
/// then joined or cannot be.
pub proof fn replies_fit_their_steps(step: SetupStep, reply: SetupReply)
    ensures
        reply_fits(step, reply) <==> {
            ||| step is OpenSocket && (reply is Done || reply is NoSocket)
            ||| (step is BindInterface || step is BindPort) && (reply is Done
                || reply is BindFailed)
            ||| step is CheckGroup && reply is GroupPresent
            ||| step is JoinGroup && (reply is Done || reply is JoinFailed)
        },
{
}

} // verus!
