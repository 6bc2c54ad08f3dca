//! The bounded search for the device among the visible peripherals.

use vstd::prelude::*;
use vstd::string::*;

verus! {

/// Number of polls for the device before giving up.
pub const DEFAULT_MAX_ATTEMPTS: u32 = 10;

/// Pause between two polls, in milliseconds.
pub const DEFAULT_RETRY_DELAY_MS: u64 = 200;

/// Why a run ended early.
#[derive(Clone, Copy, Debug, PartialEq, Eq, Structural)]
pub enum SessionError {
    /// The scan for peripherals could not be started.
    ScanStartFailed,
    /// The transport could not list the visible peripherals.
    ListFailed,
    /// The device was not seen in this many polls.
    DeviceNotFound(u32),
    ConnectFailed,
    ServiceDiscoveryFailed,
    /// The device lacks one of the two control endpoints.
    EndpointMissing(Endpoint),
    DisconnectFailed,
    /// The requested height is not a number in the accepted range.
    InvalidInput,
}

/// The two control endpoints of the desk.
#[derive(Clone, Copy, Debug, PartialEq, Eq, Structural)]
pub enum Endpoint {
    Telemetry,
    Command,
}

/// Whether two strings hold the same characters.
pub fn same_text(a: &str, b: &str) -> (r: bool)
    ensures
        r == (a@ == b@),
{
    let n = a.unicode_len();
    if n != b.unicode_len() {
        return false;
    }
    let mut i: usize = 0;
    while i < n
        invariant
            n == a@.len(),
            n == b@.len(),
            i <= n,
            forall|j: int| 0 <= j < i ==> a@[j] == b@[j],
        decreases n - i,
    {
        if a.get_char(i) != b.get_char(i) {
            return false;
        }
        i = i + 1;
    }
    proof {
        assert(a@ =~= b@);
    }
    true
}

/// Whether `r` is the position of the first name equal to `id`, or `None`
/// where no name is.
pub open spec fn is_first_match(names: Seq<String>, id: Seq<char>, r: Option<usize>) -> bool {
    match r {
        Some(i) => i < names.len() && names[i as int]@ == id && forall|j: int|
            0 <= j < i ==> names[j]@ != id,
        None => forall|j: int| 0 <= j < names.len() ==> names[j]@ != id,
    }
}

/// The position of the first name equal to `id`.
pub fn find_first(names: &Vec<String>, id: &str) -> (r: Option<usize>)
    ensures
        is_first_match(names@, id@, r),
{
    let mut i: usize = 0;
    while i < names.len()
        invariant
            i <= names@.len(),
            forall|j: int| 0 <= j < i ==> names@[j]@ != id@,
        decreases names@.len() - i,
    {
        if same_text(names[i].as_str(), id) {
            return Some(i);
        }
        i = i + 1;
    }
    None
}

/// Where the search for the device stands.
#[derive(Clone, Copy, Debug, PartialEq, Eq, Structural)]
pub enum LocatorPhase {
    /// Waiting for the scan to start.
    Scanning,
    /// Waiting for the list of visible peripherals.
    Polling,
    /// Waiting out the pause before the next poll.
    Waiting,
    /// The device is the peripheral at this position of the last list.
    Found(usize),
    /// The search ended without the device.
    Failed(SessionError),
}

/// What the locator asks its driver to do next.
#[derive(Clone, Copy, Debug, PartialEq, Eq, Structural)]
pub enum LocateAction {
    StartScan,
    ListPeripherals,
    Wait,
    Found(usize),
    Failed(SessionError),
}

/// Polls the transport for one device, a bounded number of times.
#[derive(Clone, Copy, Debug)]
pub struct DeviceLocator {
    pub max_attempts: u32,
    /// Polls made so far.
    pub attempts: u32,
    pub phase: LocatorPhase,
}

pub open spec fn spec_locator(max_attempts: u32) -> DeviceLocator {
    DeviceLocator { max_attempts, attempts: 0, phase: LocatorPhase::Scanning }
}

pub open spec fn spec_scan_started(s: DeviceLocator, ok: bool) -> DeviceLocator {
    if s.phase != LocatorPhase::Scanning {
        s
    } else if !ok {
        DeviceLocator { phase: LocatorPhase::Failed(SessionError::ScanStartFailed), ..s }
    } else if s.max_attempts == 0 {
        DeviceLocator { phase: LocatorPhase::Failed(SessionError::DeviceNotFound(0)), ..s }
    } else {
        DeviceLocator { phase: LocatorPhase::Polling, ..s }
    }
}

/// One poll: `found` is where the device stands in the list, if it is there.
pub open spec fn spec_observed(s: DeviceLocator, found: Option<usize>) -> DeviceLocator {
    if s.phase != LocatorPhase::Polling {
        s
    } else {
        let n = (s.attempts + 1) as u32;
        match found {
            Some(i) => DeviceLocator { attempts: n, phase: LocatorPhase::Found(i), ..s },
            None => if n < s.max_attempts {
                DeviceLocator { attempts: n, phase: LocatorPhase::Waiting, ..s }
            } else {
                DeviceLocator {
                    attempts: n,
                    phase: LocatorPhase::Failed(SessionError::DeviceNotFound(n)),
                    ..s
                }
            },
        }
    }
}

pub open spec fn spec_list_failed(s: DeviceLocator) -> DeviceLocator {
    if s.phase != LocatorPhase::Polling {
        s
    } else {
        DeviceLocator { phase: LocatorPhase::Failed(SessionError::ListFailed), ..s }
    }
}

pub open spec fn spec_waited(s: DeviceLocator) -> DeviceLocator {
    if s.phase != LocatorPhase::Waiting {
        s
    } else {
        DeviceLocator { phase: LocatorPhase::Polling, ..s }
    }
}

impl DeviceLocator {
    pub open spec fn wf(self) -> bool {
        &&& self.attempts <= self.max_attempts
        &&& self.phase == LocatorPhase::Scanning ==> self.attempts == 0
        &&& (self.phase == LocatorPhase::Polling || self.phase == LocatorPhase::Waiting)
            ==> self.attempts < self.max_attempts
    }

    pub open spec fn spec_pending(self) -> LocateAction {
        match self.phase {
            LocatorPhase::Scanning => LocateAction::StartScan,
            LocatorPhase::Polling => LocateAction::ListPeripherals,
            LocatorPhase::Waiting => LocateAction::Wait,
            LocatorPhase::Found(i) => LocateAction::Found(i),
            LocatorPhase::Failed(e) => LocateAction::Failed(e),
        }
    }

    /// A locator that polls at most `max_attempts` times; its first action
    /// starts the scan.
    pub fn new(max_attempts: u32) -> (l: Self)
        ensures
            l == spec_locator(max_attempts),
            l.wf(),
    {
        DeviceLocator { max_attempts, attempts: 0, phase: LocatorPhase::Scanning }
    }

    pub fn pending(&self) -> (a: LocateAction)
        ensures
            a == self.spec_pending(),
    {
        match self.phase {
            LocatorPhase::Scanning => LocateAction::StartScan,
            LocatorPhase::Polling => LocateAction::ListPeripherals,
            LocatorPhase::Waiting => LocateAction::Wait,
            LocatorPhase::Found(i) => LocateAction::Found(i),
            LocatorPhase::Failed(e) => LocateAction::Failed(e),
        }
    }

    /// Takes whether the scan started.
    pub fn scan_started(&mut self, ok: bool) -> (a: LocateAction)
        requires
            old(self).wf(),
        ensures
            *final(self) == spec_scan_started(*old(self), ok),
            final(self).wf(),
            a == final(self).spec_pending(),
    {
        if self.phase == LocatorPhase::Scanning {
            if !ok {
                self.phase = LocatorPhase::Failed(SessionError::ScanStartFailed);
            } else if self.max_attempts == 0 {
                self.phase = LocatorPhase::Failed(SessionError::DeviceNotFound(0));
            } else {
                self.phase = LocatorPhase::Polling;
            }
        }
        self.pending()
    }

    /// Takes the addresses of the visible peripherals and looks for `id` among them.
    pub fn observe(&mut self, addresses: &Vec<String>, id: &str) -> (a: LocateAction)
        requires
            old(self).wf(),
        ensures
            exists|found: Option<usize>|
                is_first_match(addresses@, id@, found) && *final(self) == spec_observed(
                    *old(self),
                    found,
                ),
            final(self).wf(),
            a == final(self).spec_pending(),
    {
        let found = find_first(addresses, id);
        self.observed(found)
    }

    /// Takes the outcome of one poll: where the device stands in the list.
    pub fn observed(&mut self, found: Option<usize>) -> (a: LocateAction)
        requires
            old(self).wf(),
        ensures
            *final(self) == spec_observed(*old(self), found),
            final(self).wf(),
            a == final(self).spec_pending(),
    {
        if self.phase == LocatorPhase::Polling {
            let n = self.attempts + 1;
            self.attempts = n;
            match found {
                Some(i) => {
                    self.phase = LocatorPhase::Found(i);
                },
                None => {
                    if n < self.max_attempts {
                        self.phase = LocatorPhase::Waiting;
                    } else {
                        self.phase = LocatorPhase::Failed(SessionError::DeviceNotFound(n));
                    }
                },
            }
        }
        self.pending()
    }

    /// Takes the report that the peripherals could not be listed.
    pub fn list_failed(&mut self) -> (a: LocateAction)
        requires
            old(self).wf(),
        ensures
            *final(self) == spec_list_failed(*old(self)),
            final(self).wf(),
            a == final(self).spec_pending(),
    {
        if self.phase == LocatorPhase::Polling {
            self.phase = LocatorPhase::Failed(SessionError::ListFailed);
        }
        self.pending()
    }

    /// Takes the end of the pause between two polls.
    pub fn waited(&mut self) -> (a: LocateAction)
        requires
            old(self).wf(),
        ensures
            *final(self) == spec_waited(*old(self)),
            final(self).wf(),
            a == final(self).spec_pending(),
    {
        if self.phase == LocatorPhase::Waiting {
            self.phase = LocatorPhase::Polling;
        }
        self.pending()
    }
}

/// The locator after `k` polls that did not see the device, each followed by
/// the pause.
pub open spec fn after_misses(s: DeviceLocator, k: nat) -> DeviceLocator
    decreases k,
{
    if k == 0 {
        s
    } else {
        after_misses(spec_waited(spec_observed(s, None)), (k - 1) as nat)
    }
}

proof fn lemma_misses(max_attempts: u32, k: nat)
    requires
        k < max_attempts,
    ensures
        after_misses(spec_scan_started(spec_locator(max_attempts), true), k) == (DeviceLocator {
            max_attempts,
            attempts: k as u32,
            phase: LocatorPhase::Polling,
        }),
    decreases k,
{
    if k > 0 {
        let s0 = spec_scan_started(spec_locator(max_attempts), true);
        lemma_misses(max_attempts, (k - 1) as nat);
        lemma_after_misses_unfold(s0, (k - 1) as nat);
    }
}

proof fn lemma_after_misses_unfold(s: DeviceLocator, k: nat)
    ensures
        after_misses(s, k + 1) == spec_waited(spec_observed(after_misses(s, k), None)),
    decreases k,
{
    reveal_with_fuel(after_misses, 2);
    if k > 0 {
        lemma_after_misses_unfold(spec_waited(spec_observed(s, None)), (k - 1) as nat);
    }
}

/// Once the scan has started, a device first seen on poll `k + 1` is found
/// after exactly `k` pauses, provided `k` polls remain; a device never seen
/// ends the search with `DeviceNotFound` after exactly `max_attempts` polls.
pub proof fn lemma_locate_attempts(max_attempts: u32, k: nat, i: usize)
    requires
        0 < max_attempts,
    ensures
        k < max_attempts ==> spec_observed(
            after_misses(spec_scan_started(spec_locator(max_attempts), true), k),
            Some(i),
        ) == (DeviceLocator {
            max_attempts,
            attempts: (k + 1) as u32,
            phase: LocatorPhase::Found(i),
        }),
        spec_observed(
            after_misses(
                spec_scan_started(spec_locator(max_attempts), true),
                (max_attempts - 1) as nat,
            ),
            None,
        ) == (DeviceLocator {
            max_attempts,
            attempts: max_attempts,
            phase: LocatorPhase::Failed(SessionError::DeviceNotFound(max_attempts)),
        }),
{
    if k < max_attempts {
        lemma_misses(max_attempts, k);
    }
    lemma_misses(max_attempts, (max_attempts - 1) as nat);
}

} // verus!
