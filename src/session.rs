//! One configuration operation on a transient control socket, as a state
//! machine: the caller performs each action it is given and reports what
//! happened. The socket is always closed before the operation finishes.
use vstd::prelude::*;

use crate::abi::{
    ifreq, in6_ifreq, le16, le16_at, le32_at, sockaddr_in_prefix, AF_INET, AF_INET6, ARPHRD_ETHER,
    IFREQ_SIZE, SIOCGIFFLAGS, SIOCGIFINDEX, SIOCSIFADDR, SIOCSIFFLAGS, SIOCSIFHWADDR,
};
use crate::config::{
    index_query, ipv4_request, ipv6_request, is_up, mac_request, raised, flags_query, up_step,
};
use crate::error::TunError;
use crate::name::{IfName, IFNAMSIZ};

verus! {

/// A configuration operation on a named interface.
#[derive(Debug, Copy, Clone, PartialEq, Eq)]
pub enum ConfigOp {
    /// Set the up and running flags, unless both are set already.
    Up,
    /// Set an IPv4 address, given by its octets.
    AddIpv4([u8; 4]),
    /// Add an IPv6 address, given by its segments, with a prefix length.
    AddIpv6([u16; 8], u32),
    /// Set the Ethernet hardware address.
    SetMac([u8; 6]),
}

/// What the caller must do next.
#[derive(Debug, PartialEq, Eq)]
pub enum Action {
    /// Open a datagram socket of this address family.
    OpenSocket(u16),
    /// Issue this control command on the socket with this request image.
    Control(u64, Vec<u8>),
    /// Close the socket.
    CloseSocket,
    /// The operation is over, with this result.
    Finish(Result<(), TunError>),
}

/// What happened when the caller performed the last action.
#[derive(Debug, PartialEq, Eq)]
pub enum Event {
    /// The socket was opened.
    Opened,
    /// The socket could not be opened: the OS error number.
    OpenFailed(i32),
    /// The control call succeeded; the request as the kernel left it.
    Answered(Vec<u8>),
    /// The control call failed: the OS error number.
    Refused(i32),
    /// The socket was closed.
    Closed,
}

/// Where an operation stands.
#[derive(Debug, Copy, Clone, PartialEq, Eq, Structural)]
pub enum Stage {
    /// Waiting for the socket to open.
    Opening,
    /// Waiting for the answer to the first control call.
    First,
    /// Waiting for the answer to the second control call.
    Second,
    /// Waiting for the socket to close.
    Closing,
    /// Finished.
    Done,
}

/// The address family of the socket `op` uses.
pub open spec fn family(op: ConfigOp) -> u16 {
    match op {
        ConfigOp::AddIpv6(_, _) => AF_INET6,
        _ => AF_INET,
    }
}

/// The command of the first control call of `op`.
pub open spec fn first_command(op: ConfigOp) -> u64 {
    match op {
        ConfigOp::Up => SIOCGIFFLAGS,
        ConfigOp::AddIpv4(_) => SIOCSIFADDR,
        ConfigOp::AddIpv6(_, _) => SIOCGIFINDEX,
        ConfigOp::SetMac(_) => SIOCSIFHWADDR,
    }
}

/// The request of the first control call of `op` on `name`.
pub open spec fn first_request(name: Seq<u8>, op: ConfigOp) -> Seq<u8> {
    match op {
        ConfigOp::Up => ifreq(name, le16(0)),
        ConfigOp::AddIpv4(o) => ifreq(name, sockaddr_in_prefix(o@)),
        ConfigOp::AddIpv6(_, _) => ifreq(name, seq![0xffu8, 0xffu8, 0xffu8, 0xffu8]),
        ConfigOp::SetMac(m) => ifreq(name, le16(ARPHRD_ETHER) + m@),
    }
}

/// The command of the second control call of `op`.
pub open spec fn second_command(op: ConfigOp) -> u64 {
    match op {
        ConfigOp::Up => SIOCSIFFLAGS,
        _ => SIOCSIFADDR,
    }
}

/// What follows the answer to the first call: `None` when the operation
/// has succeeded, an error when it has failed, or the request of the
/// second call.
pub open spec fn after_first(name: Seq<u8>, op: ConfigOp, answer: Seq<u8>) -> Option<
    Result<Seq<u8>, TunError>,
> {
    match op {
        ConfigOp::Up => if answer.len() != IFREQ_SIZE {
            Some(Err(TunError::InvalidState))
        } else if is_up(le16_at(answer, IFNAMSIZ as int)) {
            None
        } else {
            Some(Ok(ifreq(name, le16(raised(le16_at(answer, IFNAMSIZ as int))))))
        },
        ConfigOp::AddIpv6(seg, p) => if answer.len() != IFREQ_SIZE {
            Some(Err(TunError::InvalidState))
        } else if (le32_at(answer, IFNAMSIZ as int) as i32) < 0 {
            Some(Err(TunError::InvalidState))
        } else {
            Some(Ok(in6_ifreq(seg@, p, le32_at(answer, IFNAMSIZ as int) as i32)))
        },
        _ => None,
    }
}

/// Whether `ev` can answer the action last issued in `stage`.
pub open spec fn expects(stage: Stage, ev: Event) -> bool {
    match stage {
        Stage::Opening => ev is Opened || ev is OpenFailed,
        Stage::First | Stage::Second => ev is Answered || ev is Refused,
        Stage::Closing => ev is Closed,
        Stage::Done => false,
    }
}

/// One configuration operation in progress.
pub struct Session {
    name: IfName,
    op: ConfigOp,
    stage: Stage,
    outcome: Result<(), TunError>,
    open_sockets: Ghost<int>,
}

/// Copies a request image of the right size into a fixed buffer.
fn ifreq_array(v: &Vec<u8>) -> (r: Option<[u8; 40]>)
    ensures
        v@.len() != IFREQ_SIZE ==> r is None,
        v@.len() == IFREQ_SIZE ==> (r matches Some(a) && a@ == v@),
{
    if v.len() != IFREQ_SIZE {
        return None;
    }
    let mut a = [0u8; 40];
    let mut i: usize = 0;
    while i < IFREQ_SIZE
        invariant
            v@.len() == IFREQ_SIZE,
            a@.len() == IFREQ_SIZE,
            i <= IFREQ_SIZE,
            forall|k: int| 0 <= k < i ==> a@[k] == v@[k],
        decreases IFREQ_SIZE - i,
    {
        a[i] = v[i];
        i = i + 1;
    }
    assert(a@ =~= v@);
    Some(a)
}

impl Session {
    /// The interface the operation applies to.
    pub closed spec fn spec_name(&self) -> Seq<u8> {
        self.name@
    }

    /// The operation.
    pub closed spec fn spec_op(&self) -> ConfigOp {
        self.op
    }

    /// Where the operation stands.
    pub closed spec fn spec_stage(&self) -> Stage {
        self.stage
    }

    /// The result the operation will finish with, once the socket is closed.
    pub closed spec fn spec_outcome(&self) -> Result<(), TunError> {
        self.outcome
    }

    /// Sockets reported opened and not yet reported closed.
    pub closed spec fn open_sockets(&self) -> int {
        self.open_sockets@
    }

    /// The socket is held exactly between its opening and its closing.
    pub closed spec fn wf(&self) -> bool {
        self.open_sockets@ == if self.stage == Stage::First || self.stage == Stage::Second
            || self.stage == Stage::Closing {
            1int
        } else {
            0int
        }
    }

    /// Starts `op` on `name`; the first action opens the socket.
    pub fn start(name: IfName, op: ConfigOp) -> (r: (Session, Action))
        ensures
            r.0.wf(),
            r.0.spec_name() == name@,
            r.0.spec_op() == op,
            r.0.spec_stage() == Stage::Opening,
            r.0.open_sockets() == 0,
            r.1 == Action::OpenSocket(family(op)),
    {
        let fam = match op {
            ConfigOp::AddIpv6(_, _) => AF_INET6,
            _ => AF_INET,
        };
        (
            Session { name, op, stage: Stage::Opening, outcome: Ok(()), open_sockets: Ghost(0) },
            Action::OpenSocket(fam),
        )
    }

    /// Where the operation stands.
    pub fn stage(&self) -> (r: Stage)
        ensures
            r == self.spec_stage(),
    {
        self.stage
    }

    /// Whether `ev` can answer the last action.
    pub fn expects(&self, ev: &Event) -> (r: bool)
        ensures
            r == expects(self.spec_stage(), *ev),
    {
        match self.stage {
            Stage::Opening => matches!(ev, Event::Opened | Event::OpenFailed(_)),
            Stage::First | Stage::Second => matches!(ev, Event::Answered(_) | Event::Refused(_)),
            Stage::Closing => matches!(ev, Event::Closed),
            Stage::Done => false,
        }
    }

    /// The first control call, once the socket is open.
    fn first_call(&self) -> (r: Action)
        ensures
            r matches Action::Control(c, v) && c == first_command(self.op) && v@
                == first_request(self.name@, self.op),
    {
        match self.op {
            ConfigOp::Up => {
                let q = flags_query(&self.name);
                Action::Control(SIOCGIFFLAGS, vstd::slice::slice_to_vec(q.as_slice()))
            },
            ConfigOp::AddIpv4(o) => {
                let q = ipv4_request(&self.name, o);
                Action::Control(SIOCSIFADDR, vstd::slice::slice_to_vec(q.as_slice()))
            },
            ConfigOp::AddIpv6(_, _) => {
                let q = index_query(&self.name);
                proof {
                    assert(crate::abi::le32(0xffff_ffff) =~= seq![0xffu8, 0xffu8, 0xffu8, 0xffu8]);
                }
                Action::Control(SIOCGIFINDEX, vstd::slice::slice_to_vec(q.as_slice()))
            },
            ConfigOp::SetMac(m) => {
                let q = mac_request(&self.name, m);
                Action::Control(SIOCSIFHWADDR, vstd::slice::slice_to_vec(q.as_slice()))
            },
        }
    }

    /// What follows a successful first call.
    fn second_call(&self, answer: &Vec<u8>) -> (r: Option<Result<Vec<u8>, TunError>>)
        ensures
            after_first(self.name@, self.op, answer@) is None ==> r is None,
            after_first(self.name@, self.op, answer@) matches Some(Err(e)) ==> r == Some(
                Err::<Vec<u8>, TunError>(e),
            ),
            after_first(self.name@, self.op, answer@) matches Some(Ok(q)) ==> (r matches Some(
                Ok(v),
            ) && v@ == q),
    {
        match self.op {
            ConfigOp::Up => match ifreq_array(answer) {
                None => Some(Err(TunError::InvalidState)),
                Some(a) => match up_step(&self.name, &a) {
                    None => None,
                    Some(q) => Some(Ok(vstd::slice::slice_to_vec(q.as_slice()))),
                },
            },
            ConfigOp::AddIpv6(seg, p) => match ifreq_array(answer) {
                None => Some(Err(TunError::InvalidState)),
                Some(a) => match ipv6_request(&a, seg, p) {
                    Err(e) => Some(Err(e)),
                    Ok(q) => Some(Ok(vstd::slice::slice_to_vec(q.as_slice()))),
                },
            },
            _ => None,
        }
    }

    /// A finished operation holds no socket: every socket it opened, on
    /// success or on any failure, has been closed.
    pub proof fn lemma_done_holds_no_socket(&self)
        requires
            self.wf(),
            self.spec_stage() == Stage::Done,
        ensures
            self.open_sockets() == 0,
    {
    }

    /// Takes the report on the last action and returns the next action.
    pub fn step(&mut self, ev: Event) -> (r: Action)
        requires
            old(self).wf(),
            expects(old(self).spec_stage(), ev),
        ensures
            final(self).wf(),
            final(self).spec_name() == old(self).spec_name(),
            final(self).spec_op() == old(self).spec_op(),
            r is Finish ==> final(self).open_sockets() == 0 && final(self).spec_stage()
                == Stage::Done,
            r is OpenSocket ==> false,
            final(self).open_sockets() == old(self).open_sockets() + (if ev is Opened {
                1int
            } else {
                0int
            }) - (if ev is Closed {
                1int
            } else {
                0int
            }),
            ({
                let name = old(self).spec_name();
                let op = old(self).spec_op();
                match (old(self).spec_stage(), ev) {
                    (Stage::Opening, Event::Opened) => final(self).spec_stage() == Stage::First
                        && (r matches Action::Control(c, v) && c == first_command(op) && v@
                        == first_request(name, op)),
                    (Stage::Opening, Event::OpenFailed(e)) => r == Action::Finish(
                        Err(TunError::Configuration(e)),
                    ),
                    (Stage::First, Event::Refused(e)) | (Stage::Second, Event::Refused(e)) => r
                        == Action::CloseSocket && final(self).spec_stage() == Stage::Closing
                        && final(self).spec_outcome() == Err::<(), TunError>(
                        TunError::Configuration(e),
                    ),
                    (Stage::First, Event::Answered(a)) => match after_first(name, op, a@) {
                        None => r == Action::CloseSocket && final(self).spec_stage()
                            == Stage::Closing && final(self).spec_outcome() is Ok,
                        Some(Err(e)) => r == Action::CloseSocket && final(self).spec_stage()
                            == Stage::Closing && final(self).spec_outcome() == Err::<
                            (),
                            TunError,
                        >(e),
                        Some(Ok(q)) => final(self).spec_stage() == Stage::Second
                            && (r matches Action::Control(c, v) && c == second_command(op) && v@
                            == q),
                    },
                    (Stage::Second, Event::Answered(_)) => r == Action::CloseSocket
                        && final(self).spec_stage() == Stage::Closing && final(self).spec_outcome() is Ok,
                    (Stage::Closing, Event::Closed) => r == Action::Finish(
                        old(self).spec_outcome(),
                    ),
                    _ => true,
                }
            }),
    {
        match ev {
            Event::Opened => {
                self.stage = Stage::First;
                self.open_sockets = Ghost(self.open_sockets@ + 1);
                self.first_call()
            },
            Event::OpenFailed(e) => {
                self.stage = Stage::Done;
                Action::Finish(Err(TunError::Configuration(e)))
            },
            Event::Refused(e) => {
                self.stage = Stage::Closing;
                self.outcome = Err(TunError::Configuration(e));
                Action::CloseSocket
            },
            Event::Answered(a) => {
                if self.stage == Stage::Second {
                    self.stage = Stage::Closing;
                    self.outcome = Ok(());
                    return Action::CloseSocket;
                }
                match self.second_call(&a) {
                    None => {
                        self.stage = Stage::Closing;
                        self.outcome = Ok(());
                        Action::CloseSocket
                    },
                    Some(Err(e)) => {
                        self.stage = Stage::Closing;
                        self.outcome = Err(e);
                        Action::CloseSocket
                    },
                    Some(Ok(v)) => {
                        self.stage = Stage::Second;
                        let c = match self.op {
                            ConfigOp::Up => SIOCSIFFLAGS,
                            _ => SIOCSIFADDR,
                        };
                        Action::Control(c, v)
                    },
                }
            },
            Event::Closed => {
                self.stage = Stage::Done;
                self.open_sockets = Ghost(self.open_sockets@ - 1);
                Action::Finish(self.outcome)
            },
        }
    }
}

} // verus!
