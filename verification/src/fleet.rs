//! Many devices at once: one request per device, one outcome per request,
//! and no device's fate touching another's.

use vstd::prelude::*;
use crate::cli::BatchConfig;
use crate::control::{next, Control, Signal, WipePlan};
use crate::laws::run;
use crate::outcome::WipeOutcome;
use crate::request::{RequestModel, WipeRequest};

verus! {

/// Makes the requests of a batch: one per device, in the order of the
/// devices, each with the batch's pattern, pass count and verify flag.
pub fn requests_for(config: &BatchConfig) -> (requests: Vec<WipeRequest>)
    ensures
        requests.len() == config@.devices.len(),
        forall|i: int|
            0 <= i < requests.len() ==> (#[trigger] requests[i])@ == (RequestModel {
                device_path: config@.devices[i],
                pattern: config@.pattern,
                pass_count: config@.pass_count,
                verify: config@.verify,
            }),
{
    let devices = config.devices();
    let pattern = config.pattern();
    let pass_count: u32 = config.pass_count();
    let verify = config.verify();
    let n: usize = devices.len();
    let mut requests: Vec<WipeRequest> = Vec::new();
    let mut i: usize = 0;
    while i < n
        invariant
            i <= n,
            n == devices.len(),
            devices.deep_view() == config@.devices,
            requests.len() == i,
            pass_count >= 1,
            pattern == config@.pattern,
            pass_count == config@.pass_count,
            verify == config@.verify,
            forall|k: int|
                0 <= k < i ==> (#[trigger] requests[k])@ == (RequestModel {
                    device_path: config@.devices[k],
                    pattern: config@.pattern,
                    pass_count: config@.pass_count,
                    verify: config@.verify,
                }),
        decreases n - i,
    {
        assert(devices.deep_view()[i as int] == devices[i as int]@);
        let made = WipeRequest::new(devices[i].clone(), pattern, pass_count, verify);
        match made {
            Ok(request) => {
                requests.push(request);
            },
            Err(_) => {
                assert(false);
            },
        }
        i = i + 1;
    }
    requests
}

/// One line of a report: a device and its outcome, once it has one.
#[derive(Debug)]
pub struct ReportEntry {
    pub path: String,
    pub outcome: Option<WipeOutcome>,
}

/// The mathematical content of a [`ReportEntry`].
pub struct EntryModel {
    pub path: Seq<char>,
    pub outcome: Option<WipeOutcome>,
}

impl View for ReportEntry {
    type V = EntryModel;

    open spec fn view(&self) -> EntryModel {
        EntryModel { path: self.path@, outcome: self.outcome }
    }
}

/// The outcomes of a batch, one slot per request in the order of the
/// requests. A slot is filled once and never changed afterwards.
#[derive(Debug)]
pub struct FleetReport {
    entries: Vec<ReportEntry>,
}

impl View for FleetReport {
    type V = Seq<EntryModel>;

    closed spec fn view(&self) -> Seq<EntryModel> {
        Seq::new(self.entries@.len(), |i: int| self.entries@[i]@)
    }
}

/// The report `report` after `outcome` is handed in for slot `index`: the
/// slot takes the outcome if it exists and is still empty; nothing else
/// changes.
pub open spec fn recorded(report: Seq<EntryModel>, index: int, outcome: WipeOutcome) -> Seq<
    EntryModel,
> {
    if 0 <= index < report.len() && report[index].outcome is None {
        report.update(index, EntryModel { path: report[index].path, outcome: Some(outcome) })
    } else {
        report
    }
}

/// Every slot of `report` is filled.
pub open spec fn complete(report: Seq<EntryModel>) -> bool {
    forall|i: int| 0 <= i < report.len() ==> (#[trigger] report[i]).outcome is Some
}

/// Every slot of `report` holds `Success`.
pub open spec fn all_succeeded(report: Seq<EntryModel>) -> bool {
    forall|i: int|
        0 <= i < report.len() ==> (#[trigger] report[i]).outcome == Some(WipeOutcome::Success)
}

impl FleetReport {
    /// An empty report for `requests`: one slot per request, none filled.
    pub fn new(requests: &Vec<WipeRequest>) -> (report: FleetReport)
        ensures
            report@.len() == requests.len(),
            forall|i: int|
                0 <= i < requests.len() ==> (#[trigger] report@[i]) == (EntryModel {
                    path: requests[i]@.device_path,
                    outcome: None,
                }),
    {
        let n: usize = requests.len();
        let mut entries: Vec<ReportEntry> = Vec::new();
        let mut i: usize = 0;
        while i < n
            invariant
                i <= n,
                n == requests.len(),
                entries.len() == i,
                forall|k: int|
                    0 <= k < i ==> (#[trigger] entries[k])@ == (EntryModel {
                        path: requests[k]@.device_path,
                        outcome: None,
                    }),
            decreases n - i,
        {
            entries.push(ReportEntry { path: requests[i].device_path().clone(), outcome: None });
            i = i + 1;
        }
        FleetReport { entries }
    }

    /// Number of slots.
    pub fn len(&self) -> (n: usize)
        ensures
            n == self@.len(),
    {
        self.entries.len()
    }

    /// Hands in the outcome of request `index`. Returns whether the slot
    /// took it: a slot that does not exist or is already filled does not.
    pub fn record(&mut self, index: usize, outcome: WipeOutcome) -> (taken: bool)
        ensures
            final(self)@ == recorded(old(self)@, index as int, outcome),
            taken == (index < old(self)@.len() && old(self)@[index as int].outcome is None),
            final(self)@.len() == old(self)@.len(),
            forall|j: int|
                0 <= j < old(self)@.len() && j != index ==> final(self)@[j] == old(self)@[j],
    {
        if index >= self.entries.len() {
            return false;
        }
        if self.entries[index].outcome.is_some() {
            return false;
        }
        let path = self.entries[index].path.clone();
        self.entries.set(index, ReportEntry { path, outcome: Some(outcome) });
        assert(self@ =~= recorded(old(self)@, index as int, outcome));
        true
    }

    /// The device of slot `index`.
    pub fn path(&self, index: usize) -> (path: &String)
        requires
            index < self@.len(),
        ensures
            path@ == self@[index as int].path,
    {
        &self.entries[index].path
    }

    /// The outcome in slot `index`; `None` if the slot is empty or does not
    /// exist.
    pub fn outcome(&self, index: usize) -> (outcome: Option<WipeOutcome>)
        ensures
            outcome == if index < self@.len() {
                self@[index as int].outcome
            } else {
                None
            },
    {
        if index < self.entries.len() {
            self.entries[index].outcome
        } else {
            None
        }
    }

    /// Whether every request has its outcome.
    pub fn is_complete(&self) -> (done: bool)
        ensures
            done == complete(self@),
    {
        let n: usize = self.entries.len();
        let mut i: usize = 0;
        while i < n
            invariant
                i <= n,
                n == self.entries.len(),
                forall|k: int| 0 <= k < i ==> (#[trigger] self@[k]).outcome is Some,
            decreases n - i,
        {
            if self.entries[i].outcome.is_none() {
                assert(self@[i as int].outcome is None);
                return false;
            }
            i = i + 1;
        }
        true
    }

    /// Whether every request ended in `Success`.
    pub fn succeeded(&self) -> (ok: bool)
        ensures
            ok == all_succeeded(self@),
    {
        let n: usize = self.entries.len();
        let mut i: usize = 0;
        while i < n
            invariant
                i <= n,
                n == self.entries.len(),
                forall|k: int|
                    0 <= k < i ==> (#[trigger] self@[k]).outcome == Some(WipeOutcome::Success),
            decreases n - i,
        {
            let fine = match self.entries[i].outcome {
                Some(WipeOutcome::Success) => true,
                _ => false,
            };
            if !fine {
                assert(self@[i as int].outcome != Some(WipeOutcome::Success));
                return false;
            }
            i = i + 1;
        }
        true
    }

    /// The exit status of the invocation: 0 when every device ended in
    /// `Success`, 1 otherwise.
    pub fn exit_code(&self) -> (code: i32)
        ensures
            code == if all_succeeded(self@) {
                0i32
            } else {
                1i32
            },
    {
        if self.succeeded() {
            0
        } else {
            1
        }
    }
}

/// A signal together with the device whose worker sent it.
pub struct Tagged {
    pub device: int,
    pub signal: Signal,
}

/// The states of all devices after the worker of one of them reports: that
/// device moves as its own rule says, the others stay.
pub open spec fn fleet_next(plans: Seq<WipePlan>, states: Seq<Control>, t: Tagged) -> Seq<
    Control,
> {
    if 0 <= t.device < states.len() {
        states.update(t.device, next(plans[t.device], states[t.device], t.signal))
    } else {
        states
    }
}

/// The states of all devices after the reports of `reports`, in the order
/// in which they arrive.
pub open spec fn fleet_run(plans: Seq<WipePlan>, states: Seq<Control>, reports: Seq<Tagged>) -> Seq<
    Control,
>
    decreases reports.len(),
{
    if reports.len() == 0 {
        states
    } else {
        fleet_run(plans, fleet_next(plans, states, reports[0]), reports.drop_first())
    }
}

/// The signals in `reports` that come from `device`, in order.
pub open spec fn signals_of(reports: Seq<Tagged>, device: int) -> Seq<Signal>
    decreases reports.len(),
{
    if reports.len() == 0 {
        Seq::empty()
    } else if reports[0].device == device {
        seq![reports[0].signal] + signals_of(reports.drop_first(), device)
    } else {
        signals_of(reports.drop_first(), device)
    }
}

/// Independence of the devices: however the reports of the workers
/// interleave, each device ends where its own signals alone would have
/// brought it. What happens to one device, failures included, neither stops
/// nor alters the wipe of another.
pub proof fn law_devices_are_independent(
    plans: Seq<WipePlan>,
    states: Seq<Control>,
    reports: Seq<Tagged>,
    device: int,
)
    requires
        plans.len() == states.len(),
        0 <= device < states.len(),
    ensures
        fleet_run(plans, states, reports).len() == states.len(),
        fleet_run(plans, states, reports)[device] == run(
            plans[device],
            states[device],
            signals_of(reports, device),
        ),
    decreases reports.len(),
{
    if reports.len() > 0 {
        let first = reports[0];
        let rest = reports.drop_first();
        let moved = fleet_next(plans, states, first);
        law_devices_are_independent(plans, moved, rest, device);
        if first.device == device {
            let own = signals_of(reports, device);
            assert(own[0] == first.signal);
            assert(own.drop_first() =~= signals_of(rest, device));
        }
    }
}

/// Outcomes are reported independently: of two outcomes handed in for
/// different slots, each lands in its own slot whatever the other is, and
/// the order in which they are handed in makes no difference.
pub proof fn law_reports_are_independent(
    report: Seq<EntryModel>,
    a: int,
    outcome_a: WipeOutcome,
    b: int,
    outcome_b: WipeOutcome,
)
    requires
        0 <= a < report.len(),
        0 <= b < report.len(),
        a != b,
        report[a].outcome is None,
        report[b].outcome is None,
    ensures
        recorded(recorded(report, a, outcome_a), b, outcome_b) == recorded(
            recorded(report, b, outcome_b),
            a,
            outcome_a,
        ),
        recorded(recorded(report, a, outcome_a), b, outcome_b)[a].outcome == Some(outcome_a),
        recorded(recorded(report, a, outcome_a), b, outcome_b)[b].outcome == Some(outcome_b),
{
    assert(recorded(recorded(report, a, outcome_a), b, outcome_b) =~= recorded(
        recorded(report, b, outcome_b),
        a,
        outcome_a,
    ));
}

} // verus!
