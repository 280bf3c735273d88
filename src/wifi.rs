use vstd::prelude::*;

verus! {

/// Authentication used when joining a network.
#[derive(Clone, Copy, Debug, PartialEq, Eq, Structural)]
pub enum AuthMethod {
    Open,
    WPA2Personal,
}

/// Address assignment of the client interface.
#[derive(Clone, Copy, Debug, PartialEq, Eq, Structural)]
pub enum ClientIpStatus {
    Disabled,
    Waiting,
    Done,
}

/// Link state of the client interface.
#[derive(Clone, Copy, Debug, PartialEq, Eq, Structural)]
pub enum ClientConnectionStatus {
    Disconnected,
    Connecting,
    Connected(ClientIpStatus),
}

/// Overall state of the client side of the radio.
#[derive(Clone, Copy, Debug, PartialEq, Eq, Structural)]
pub enum ClientStatus {
    Stopped,
    Starting,
    Started(ClientConnectionStatus),
}

/// Address assignment of the access-point interface.
#[derive(Clone, Copy, Debug, PartialEq, Eq, Structural)]
pub enum ApIpStatus {
    Disabled,
    Waiting,
    Done,
}

/// Overall state of the access-point side of the radio.
#[derive(Clone, Copy, Debug, PartialEq, Eq, Structural)]
pub enum ApStatus {
    Stopped,
    Starting,
    Started(ApIpStatus),
}

/// Status of the wireless subsystem: its client side and its access-point side.
#[derive(Clone, Copy, Debug, PartialEq, Eq, Structural)]
pub struct Status {
    pub client: ClientStatus,
    pub ap: ApStatus,
}

pub open spec fn client_transitional(c: ClientStatus) -> bool {
    match c {
        ClientStatus::Starting => true,
        ClientStatus::Started(ClientConnectionStatus::Connecting) => true,
        ClientStatus::Started(ClientConnectionStatus::Connected(ClientIpStatus::Waiting)) => true,
        _ => false,
    }
}

pub open spec fn ap_transitional(a: ApStatus) -> bool {
    match a {
        ApStatus::Starting => true,
        ApStatus::Started(ApIpStatus::Waiting) => true,
        _ => false,
    }
}

/// A status is transitional while either side is still starting, connecting or
/// waiting for an address.
pub open spec fn status_transitional(s: Status) -> bool {
    client_transitional(s.client) || ap_transitional(s.ap)
}

/// The one status that counts as a finished association: the client is started,
/// connected, and its address assignment is done.
pub open spec fn status_associated(s: Status) -> bool {
    s.client == ClientStatus::Started(ClientConnectionStatus::Connected(ClientIpStatus::Done))
}

impl Status {
    pub fn is_transitional(&self) -> (r: bool)
        ensures
            r == status_transitional(*self),
    {
        let client = match self.client {
            ClientStatus::Starting => true,
            ClientStatus::Started(ClientConnectionStatus::Connecting) => true,
            ClientStatus::Started(
                ClientConnectionStatus::Connected(ClientIpStatus::Waiting),
            ) => true,
            _ => false,
        };
        let ap = match self.ap {
            ApStatus::Starting => true,
            ApStatus::Started(ApIpStatus::Waiting) => true,
            _ => false,
        };
        client || ap
    }

    pub fn is_associated(&self) -> (r: bool)
        ensures
            r == status_associated(*self),
    {
        match self.client {
            ClientStatus::Started(ClientConnectionStatus::Connected(ClientIpStatus::Done)) => true,
            _ => false,
        }
    }
}

/// One access point seen by a scan.
#[derive(Clone, Debug)]
pub struct AccessPointInfo {
    pub ssid: String,
    pub channel: u8,
}

/// What is handed to the wireless subsystem before connecting.
#[derive(Clone, Debug)]
pub struct ClientConfiguration {
    pub ssid: String,
    pub password: String,
    pub channel: Option<u8>,
    pub auth_method: AuthMethod,
}

/// Why an association attempt ended without a connection.
#[derive(Clone, Copy, Debug, PartialEq, Eq, Structural)]
pub enum AssociationError {
    /// The network name is empty.
    MissingName,
    /// The network interface, event loop or persistent store could not be had.
    PlatformInit,
    /// The scan or the configuration call of the wireless driver failed.
    Driver,
    /// The status stayed transitional until the timeout.
    Timeout,
    /// The status settled on something other than a finished association.
    Unexpected(Status),
    /// An event came that does not answer the action last asked for.
    OutOfOrder,
}

/// An empty secret means an open network; any other a pre-shared key.
pub open spec fn auth_for(secret: Seq<char>) -> AuthMethod {
    if secret.len() == 0 {
        AuthMethod::Open
    } else {
        AuthMethod::WPA2Personal
    }
}

pub fn choose_auth_method(psk: &str) -> (r: AuthMethod)
    ensures
        r == auth_for(psk@),
{
    if psk.is_empty() {
        AuthMethod::Open
    } else {
        AuthMethod::WPA2Personal
    }
}

/// `i` is the first position in `aps` whose name is `ssid`.
pub open spec fn first_match(aps: Seq<AccessPointInfo>, ssid: Seq<char>, i: int) -> bool {
    &&& 0 <= i < aps.len()
    &&& aps[i].ssid@ == ssid
    &&& forall|j: int| 0 <= j < i ==> aps[j].ssid@ != ssid
}

/// Channel of the first access point named `ssid`, if any is named so.
pub open spec fn channel_of(aps: Seq<AccessPointInfo>, ssid: Seq<char>) -> Option<u8> {
    if exists|i: int| first_match(aps, ssid, i) {
        Some(aps[choose|i: int| first_match(aps, ssid, i)].channel)
    } else {
        None
    }
}

pub fn find_channel(aps: &Vec<AccessPointInfo>, ssid: &str) -> (r: Option<u8>)
    ensures
        r == channel_of(aps@, ssid@),
        r is None <==> forall|i: int| 0 <= i < aps@.len() ==> aps@[i].ssid@ != ssid@,
{
    let wanted = ssid.to_owned();
    let mut i: usize = 0;
    while i < aps.len()
        invariant
            wanted@ == ssid@,
            i <= aps@.len(),
            forall|j: int| 0 <= j < i ==> aps@[j].ssid@ != ssid@,
        decreases aps.len() - i,
    {
        if aps[i].ssid == wanted {
            assert(first_match(aps@, ssid@, i as int));
            assert forall|k: int| first_match(aps@, ssid@, k) implies k == i by {
                if k < i {
                    assert(aps@[k].ssid@ != ssid@);
                } else if k > i {
                    assert(aps@[i as int].ssid@ != ssid@);
                }
            }
            return Some(aps[i].channel);
        }
        i = i + 1;
    }
    assert(!exists|k: int| first_match(aps@, ssid@, k));
    None
}

/// The steps of an association attempt, in the order they are taken.
#[derive(Clone, Copy, Debug, PartialEq, Eq, Structural)]
pub enum Phase {
    Acquiring,
    Scanning,
    Configuring,
    Settling,
    Inspecting,
    Finished,
}

/// What the platform reports back after an action.
#[derive(Clone, Debug)]
pub enum AssociationEvent {
    PlatformReady,
    PlatformFailed,
    ScanCompleted(Vec<AccessPointInfo>),
    DriverFailed,
    Configured,
    Settled,
    TimedOut,
    StatusRead(Status),
}

/// What the platform is asked to do next.
#[derive(Clone, Debug)]
pub enum AssociationAction {
    /// Acquire the network interface, event loop and persistent store.
    AcquirePlatform,
    /// Scan for access points.
    Scan,
    /// Apply this client configuration.
    Configure(ClientConfiguration),
    /// Wait, at most this many seconds, until the status is no longer transitional.
    AwaitSettled(u64),
    /// Read the status.
    ReadStatus,
    /// The association is complete.
    Connected,
    /// The attempt is over.
    Fail(AssociationError),
}

/// The decisions of one association attempt; the platform work is done by the
/// caller, which performs each action and reports the outcome as an event.
#[derive(Clone, Debug)]
pub struct Association {
    pub ssid: String,
    pub psk: String,
    pub auth_method: AuthMethod,
    pub timeout_secs: u64,
    pub channel: Option<u8>,
    pub phase: Phase,
}

/// The configuration that an attempt applies once its scan is done.
pub open spec fn configuration_of(a: Association, channel: Option<u8>) -> ClientConfiguration {
    ClientConfiguration {
        ssid: a.ssid,
        password: a.psk,
        channel: channel,
        auth_method: a.auth_method,
    }
}

/// The phase that follows `ev` in the attempt `a`.
pub open spec fn next_phase(a: Association, ev: AssociationEvent) -> Phase {
    match (a.phase, ev) {
        (Phase::Acquiring, AssociationEvent::PlatformReady) => Phase::Scanning,
        (Phase::Scanning, AssociationEvent::ScanCompleted(_)) => Phase::Configuring,
        (Phase::Configuring, AssociationEvent::Configured) => Phase::Settling,
        (Phase::Settling, AssociationEvent::Settled) => Phase::Inspecting,
        _ => Phase::Finished,
    }
}

/// The action that follows `ev` in the attempt `a`.
pub open spec fn next_action(a: Association, ev: AssociationEvent) -> AssociationAction {
    match (a.phase, ev) {
        (Phase::Acquiring, AssociationEvent::PlatformReady) => AssociationAction::Scan,
        (Phase::Acquiring, AssociationEvent::PlatformFailed) => AssociationAction::Fail(
            AssociationError::PlatformInit,
        ),
        (Phase::Scanning, AssociationEvent::ScanCompleted(aps)) => AssociationAction::Configure(
            configuration_of(a, channel_of(aps@, a.ssid@)),
        ),
        (Phase::Scanning, AssociationEvent::DriverFailed) => AssociationAction::Fail(
            AssociationError::Driver,
        ),
        (Phase::Configuring, AssociationEvent::Configured) => AssociationAction::AwaitSettled(
            a.timeout_secs,
        ),
        (Phase::Configuring, AssociationEvent::DriverFailed) => AssociationAction::Fail(
            AssociationError::Driver,
        ),
        (Phase::Settling, AssociationEvent::Settled) => AssociationAction::ReadStatus,
        (Phase::Settling, AssociationEvent::TimedOut) => AssociationAction::Fail(
            AssociationError::Timeout,
        ),
        (Phase::Inspecting, AssociationEvent::StatusRead(s)) => if status_associated(s) {
            AssociationAction::Connected
        } else {
            AssociationAction::Fail(AssociationError::Unexpected(s))
        },
        _ => AssociationAction::Fail(AssociationError::OutOfOrder),
    }
}

pub open spec fn next_channel(a: Association, ev: AssociationEvent) -> Option<u8> {
    match (a.phase, ev) {
        (Phase::Scanning, AssociationEvent::ScanCompleted(aps)) => channel_of(aps@, a.ssid@),
        _ => a.channel,
    }
}

impl Association {
    /// The authentication method is the one the secret calls for.
    pub open spec fn wf(self) -> bool {
        self.auth_method == auth_for(self.psk@)
    }

    /// Starts an attempt to join `ssid` with `psk`, waiting at most
    /// `timeout_secs` seconds for the status to settle. An empty name ends the
    /// attempt at once, before any platform resource is asked for.
    pub fn begin(ssid: &str, psk: &str, timeout_secs: u64) -> (r: (Association, AssociationAction))
        ensures
            r.0.ssid@ == ssid@,
            r.0.psk@ == psk@,
            r.0.auth_method == auth_for(psk@),
            r.0.timeout_secs == timeout_secs,
            r.0.channel is None,
            r.0.wf(),
            ssid@.len() == 0 ==> r.0.phase == Phase::Finished && r.1 == AssociationAction::Fail(
                AssociationError::MissingName,
            ),
            ssid@.len() != 0 ==> r.0.phase == Phase::Acquiring && r.1
                == AssociationAction::AcquirePlatform,
    {
        let auth_method = choose_auth_method(psk);
        let empty = ssid.is_empty();
        let a = Association {
            ssid: ssid.to_owned(),
            psk: psk.to_owned(),
            auth_method,
            timeout_secs,
            channel: None,
            phase: if empty {
                Phase::Finished
            } else {
                Phase::Acquiring
            },
        };
        if empty {
            (a, AssociationAction::Fail(AssociationError::MissingName))
        } else {
            (a, AssociationAction::AcquirePlatform)
        }
    }

    /// Takes the outcome of the last action and decides the next one.
    pub fn step(&mut self, ev: AssociationEvent) -> (r: AssociationAction)
        ensures
            r == next_action(*old(self), ev),
            final(self).phase == next_phase(*old(self), ev),
            final(self).channel == next_channel(*old(self), ev),
            final(self).ssid == old(self).ssid,
            final(self).psk == old(self).psk,
            final(self).auth_method == old(self).auth_method,
            final(self).timeout_secs == old(self).timeout_secs,
            old(self).wf() ==> final(self).wf(),
    {
        let phase = self.phase;
        match (phase, ev) {
            (Phase::Acquiring, AssociationEvent::PlatformReady) => {
                self.phase = Phase::Scanning;
                AssociationAction::Scan
            },
            (Phase::Scanning, AssociationEvent::ScanCompleted(aps)) => {
                let channel = find_channel(&aps, self.ssid.as_str());
                self.channel = channel;
                self.phase = Phase::Configuring;
                AssociationAction::Configure(
                    ClientConfiguration {
                        ssid: self.ssid.clone(),
                        password: self.psk.clone(),
                        channel,
                        auth_method: self.auth_method,
                    },
                )
            },
            (Phase::Configuring, AssociationEvent::Configured) => {
                self.phase = Phase::Settling;
                AssociationAction::AwaitSettled(self.timeout_secs)
            },
            (Phase::Settling, AssociationEvent::Settled) => {
                self.phase = Phase::Inspecting;
                AssociationAction::ReadStatus
            },
            (Phase::Acquiring, AssociationEvent::PlatformFailed) => {
                self.phase = Phase::Finished;
                AssociationAction::Fail(AssociationError::PlatformInit)
            },
            (Phase::Scanning, AssociationEvent::DriverFailed) => {
                self.phase = Phase::Finished;
                AssociationAction::Fail(AssociationError::Driver)
            },
            (Phase::Configuring, AssociationEvent::DriverFailed) => {
                self.phase = Phase::Finished;
                AssociationAction::Fail(AssociationError::Driver)
            },
            (Phase::Settling, AssociationEvent::TimedOut) => {
                self.phase = Phase::Finished;
                AssociationAction::Fail(AssociationError::Timeout)
            },
            (Phase::Inspecting, AssociationEvent::StatusRead(s)) => {
                self.phase = Phase::Finished;
                if s.is_associated() {
                    AssociationAction::Connected
                } else {
                    AssociationAction::Fail(AssociationError::Unexpected(s))
                }
            },
            _ => {
                self.phase = Phase::Finished;
                AssociationAction::Fail(AssociationError::OutOfOrder)
            },
        }
    }
}

/// Platform resources are asked for only when an attempt begins with a
/// non-empty name: no event leads to acquiring them, and an attempt that has
/// finished (as one with an empty name does at once) asks for nothing more.
pub proof fn lemma_acquisition_only_at_begin(a: Association, ev: AssociationEvent)
    ensures
        !(next_action(a, ev) is AcquirePlatform),
        a.phase == Phase::Finished ==> next_phase(a, ev) == Phase::Finished && next_action(a, ev)
            == AssociationAction::Fail(AssociationError::OutOfOrder),
{
}

/// The configuration applied to the radio uses the open mode exactly when the
/// secret is empty, and the pre-shared-key mode otherwise.
pub proof fn lemma_configured_auth_follows_secret(a: Association, ev: AssociationEvent)
    requires
        a.wf(),
        next_action(a, ev) is Configure,
    ensures
        a.psk@.len() == 0 ==> next_action(a, ev)->Configure_0.auth_method == AuthMethod::Open,
        a.psk@.len() != 0 ==> next_action(a, ev)->Configure_0.auth_method
            == AuthMethod::WPA2Personal,
        next_action(a, ev)->Configure_0.password == a.psk,
        next_action(a, ev)->Configure_0.ssid == a.ssid,
{
}

/// A wait that ends by timeout fails the attempt with `Timeout`; `Unexpected`
/// comes only from a status read after the wait settled.
pub proof fn lemma_timeout_is_not_unexpected(a: Association, ev: AssociationEvent)
    ensures
        a.phase == Phase::Settling && ev is TimedOut ==> next_action(a, ev) == AssociationAction::Fail(
            AssociationError::Timeout,
        ),
        next_action(a, ev) matches AssociationAction::Fail(AssociationError::Unexpected(s))
            ==> a.phase == Phase::Inspecting && ev == AssociationEvent::StatusRead(s)
            && !status_associated(s),
{
}

/// A settled status other than started, connected and addressed fails the
/// attempt with `Unexpected`, carrying that status; that one status succeeds.
pub proof fn lemma_unassociated_status_is_unexpected(a: Association, s: Status)
    requires
        a.phase == Phase::Inspecting,
    ensures
        !status_associated(s) ==> next_action(a, AssociationEvent::StatusRead(s))
            == AssociationAction::Fail(AssociationError::Unexpected(s)),
        status_associated(s) ==> next_action(a, AssociationEvent::StatusRead(s))
            == AssociationAction::Connected,
{
}

} // verus!
