//! The startup sequence: a fixed script of calls, made once and in order
//! before any command is read, each with what its answer must look like.
//! The first answer that does not look so ends the sequence for good.

use crate::calls::{
    delete_item, get_item, outcome_view, ping, post_item, set_item, settle, settled, OutcomeView,
    RpcFailure,
};
use crate::messages::{Operation, Request, RequestView, Response, ResponseView};
use crate::text::{lowered, reads_in_lower_case, same_text};
use vstd::prelude::*;
use vstd::string::StringExecFns;

verus! {

/// What the answer to a step must look like.
#[derive(Debug, Clone, PartialEq, Eq)]
pub enum Expectation {
    /// Nothing is asked of the answer, not even that there is one.
    Unchecked,
    /// A store was confirmed with exactly this message.
    Confirmed(String),
    /// Exactly this value was found.
    Valued(String),
    /// Exactly this many entries were deleted.
    Counted(i64),
    /// Exactly this message came back from a probe.
    Echoed(String),
    /// A probe without a message was acknowledged: the answer reads `pong`,
    /// in whatever case.
    Acknowledged,
}

/// One step of the script.
#[derive(Debug, Clone, PartialEq, Eq)]
pub struct Step {
    /// The call to make.
    pub call: Request,
    /// What its answer must look like.
    pub expect: Expectation,
    /// How long to wait once the answer is there, in milliseconds.
    pub pause_ms: u64,
    /// Whether the answer is logged at info severity.
    pub log_response: bool,
}

/// How a run stands.
#[derive(Debug, Clone, Copy, PartialEq, Eq, Structural)]
pub enum Verdict {
    /// No step has failed, and another step follows.
    Proceed,
    /// Every step has passed.
    Finished,
    /// A step has failed: the process must not go on.
    Abort,
}

/// What is to be done with the answer to a step, in this order: log the
/// failure at error severity, wait, log the response at info severity
/// where the step asks for it, then follow the verdict.
#[derive(Debug, Clone, PartialEq, Eq)]
pub struct StepReport {
    /// The response that the step's call returned, if it returned one.
    pub response: Option<Response>,
    /// The failure of the exchange, if it failed.
    pub failure: Option<RpcFailure>,
    /// How long to wait, in milliseconds.
    pub pause_ms: u64,
    /// Whether the response is logged at info severity.
    pub log_response: bool,
    /// Whether to go on.
    pub verdict: Verdict,
}

/// A run of a script: the script, how many of its steps have passed, and
/// whether the step behind them has failed.
#[derive(Debug, Clone, PartialEq, Eq)]
pub struct Startup {
    script: Vec<Step>,
    passed: usize,
    failed: bool,
}

/// An expectation as contracts speak of it.
pub enum ExpectationView {
    Unchecked,
    Confirmed(Seq<char>),
    Valued(Seq<char>),
    Counted(i64),
    Echoed(Seq<char>),
    Acknowledged,
}

/// A step as contracts speak of it.
pub struct StepView {
    pub call: RequestView,
    pub expect: ExpectationView,
    pub pause_ms: u64,
    pub log_response: bool,
}

/// A report as contracts speak of it.
pub struct StepReportView {
    pub response: Option<ResponseView>,
    pub failure: Option<Seq<char>>,
    pub pause_ms: u64,
    pub log_response: bool,
    pub verdict: Verdict,
}

/// The sequence as contracts speak of it.
pub struct StartupView {
    /// The script that is run.
    pub script: Seq<StepView>,
    /// How many of its steps have passed.
    pub passed: nat,
    /// Whether the step behind them has failed.
    pub failed: bool,
}

impl View for Expectation {
    type V = ExpectationView;

    open spec fn view(&self) -> ExpectationView {
        match *self {
            Expectation::Unchecked => ExpectationView::Unchecked,
            Expectation::Confirmed(message) => ExpectationView::Confirmed(message@),
            Expectation::Valued(value) => ExpectationView::Valued(value@),
            Expectation::Counted(count) => ExpectationView::Counted(count),
            Expectation::Echoed(message) => ExpectationView::Echoed(message@),
            Expectation::Acknowledged => ExpectationView::Acknowledged,
        }
    }
}

impl View for Step {
    type V = StepView;

    open spec fn view(&self) -> StepView {
        StepView {
            call: self.call@,
            expect: self.expect@,
            pause_ms: self.pause_ms,
            log_response: self.log_response,
        }
    }
}

impl View for StepReport {
    type V = StepReportView;

    open spec fn view(&self) -> StepReportView {
        StepReportView {
            response: match self.response {
                Some(response) => Some(response@),
                None => None,
            },
            failure: match self.failure {
                Some(failure) => Some(failure.detail@),
                None => None,
            },
            pause_ms: self.pause_ms,
            log_response: self.log_response,
            verdict: self.verdict,
        }
    }
}

/// The steps of a script as contracts speak of them.
pub open spec fn steps_view(steps: Seq<Step>) -> Seq<StepView> {
    Seq::new(steps.len(), |i: int| steps[i]@)
}

impl View for Startup {
    type V = StartupView;

    closed spec fn view(&self) -> StartupView {
        StartupView {
            script: steps_view(self.script@),
            passed: self.passed as nat,
            failed: self.failed,
        }
    }
}

/// The pause behind each probe that carries a message, in milliseconds.
pub const PROBE_PAUSE_MS: u64 = 100;

/// The script, in the order in which it is run.
pub open spec fn script() -> Seq<StepView> {
    seq![
        StepView {
            call: RequestView::PostItem { name: "ddd"@ },
            expect: ExpectationView::Unchecked,
            pause_ms: 0,
            log_response: true,
        },
        StepView {
            call: RequestView::SetItem { key: "key"@, value: "value"@ },
            expect: ExpectationView::Confirmed("OK"@),
            pause_ms: 0,
            log_response: false,
        },
        StepView {
            call: RequestView::GetItem { key: "key"@ },
            expect: ExpectationView::Valued("value"@),
            pause_ms: 0,
            log_response: false,
        },
        StepView {
            call: RequestView::DeleteItem { keys: seq!["key"@] },
            expect: ExpectationView::Counted(1),
            pause_ms: 0,
            log_response: false,
        },
        StepView {
            call: RequestView::Ping { message: Some("ping 0"@) },
            expect: ExpectationView::Echoed("ping 0"@),
            pause_ms: PROBE_PAUSE_MS,
            log_response: true,
        },
        StepView {
            call: RequestView::Ping { message: Some("ping 1"@) },
            expect: ExpectationView::Echoed("ping 1"@),
            pause_ms: PROBE_PAUSE_MS,
            log_response: true,
        },
        StepView {
            call: RequestView::Ping { message: Some("ping 2"@) },
            expect: ExpectationView::Echoed("ping 2"@),
            pause_ms: PROBE_PAUSE_MS,
            log_response: true,
        },
        StepView {
            call: RequestView::Ping { message: None },
            expect: ExpectationView::Acknowledged,
            pause_ms: 0,
            log_response: false,
        },
    ]
}

/// What a step's call returns for what came back from the exchange. A post
/// is made directly: its response if there is one, and nothing in place of
/// one. Every other call goes through its wrapper, which always
/// returns a response.
pub open spec fn returned(call: RequestView, outcome: OutcomeView) -> Option<ResponseView> {
    if call.operation() == Operation::PostItem {
        match outcome {
            Ok(response) => Some(response),
            Err(_) => None,
        }
    } else {
        Some(settled(call.operation(), outcome).response)
    }
}

/// The failure that an exchange ended in, if it did.
pub open spec fn failure_of(outcome: OutcomeView) -> Option<Seq<char>> {
    match outcome {
        Ok(_) => None,
        Err(detail) => Some(detail),
    }
}

/// Whether a returned response is what a step expects.
pub open spec fn met(expect: ExpectationView, response: Option<ResponseView>) -> bool {
    match expect {
        ExpectationView::Unchecked => true,
        ExpectationView::Confirmed(message) => response == Some(
            ResponseView::SetItem { message },
        ),
        ExpectationView::Valued(value) => response == Some(ResponseView::GetItem { value }),
        ExpectationView::Counted(count) => response == Some(ResponseView::DeleteItem { count }),
        ExpectationView::Echoed(message) => response == Some(ResponseView::Ping { message }),
        ExpectationView::Acknowledged => response matches Some(ResponseView::Ping { message })
            && lowered(message) == "pong"@,
    }
}

impl StartupView {
    /// A run of `script` before its first step.
    pub open spec fn start(script: Seq<StepView>) -> StartupView {
        StartupView { script, passed: 0, failed: false }
    }

    /// Whether every step has passed.
    pub open spec fn finished(self) -> bool {
        !self.failed && self.passed == self.script.len()
    }

    /// The step whose call is to be made next: none once the script is
    /// through or a step has failed.
    pub open spec fn pending(self) -> Option<StepView> {
        if !self.failed && self.passed < self.script.len() {
            Some(self.script[self.passed as int])
        } else {
            None
        }
    }

    /// The run and the report after what came back for the pending step.
    /// Where no step is pending, what came back is ignored.
    pub open spec fn recorded(self, outcome: OutcomeView) -> (StartupView, StepReportView) {
        match self.pending() {
            Some(step) => {
                let response = returned(step.call, outcome);
                let passes = met(step.expect, response);
                let next = if passes {
                    StartupView { passed: self.passed + 1, ..self }
                } else {
                    StartupView { failed: true, ..self }
                };
                (
                    next,
                    StepReportView {
                        response,
                        failure: failure_of(outcome),
                        pause_ms: step.pause_ms,
                        log_response: step.log_response,
                        verdict: next.verdict(),
                    },
                )
            },
            None => (
                self,
                StepReportView {
                    response: None,
                    failure: None,
                    pause_ms: 0,
                    log_response: false,
                    verdict: self.verdict(),
                },
            ),
        }
    }

    /// How the run stands.
    pub open spec fn verdict(self) -> Verdict {
        if self.failed {
            Verdict::Abort
        } else if self.passed < self.script.len() {
            Verdict::Proceed
        } else {
            Verdict::Finished
        }
    }

    /// The run after a series of answers, recorded one after the other.
    pub open spec fn after(self, outcomes: Seq<OutcomeView>) -> StartupView
        decreases outcomes.len(),
    {
        if outcomes.len() == 0 {
            self
        } else {
            self.after(outcomes.drop_last()).recorded(outcomes.last()).0
        }
    }
}

/// Whether the answer at `index` of a series is what the step at `index` of
/// the script expects of the call that it makes.
pub open spec fn answer_met(script: Seq<StepView>, outcomes: Seq<OutcomeView>, index: int) -> bool {
    met(script[index].expect, returned(script[index].call, outcomes[index]))
}

/// The startup script, in the order in which it is run.
pub fn startup_script() -> (steps: Vec<Step>)
    ensures
        steps_view(steps@) == script(),
{
    let mut keys: Vec<String> = Vec::new();
    keys.push(String::from_str("key"));
    assert(keys.deep_view() == seq!["key"@]);
    let mut steps: Vec<Step> = Vec::new();
    steps.push(
        Step {
            call: post_item(String::from_str("ddd")),
            expect: Expectation::Unchecked,
            pause_ms: 0,
            log_response: true,
        },
    );
    steps.push(
        Step {
            call: set_item(String::from_str("key"), String::from_str("value")),
            expect: Expectation::Confirmed(String::from_str("OK")),
            pause_ms: 0,
            log_response: false,
        },
    );
    steps.push(
        Step {
            call: get_item(String::from_str("key")),
            expect: Expectation::Valued(String::from_str("value")),
            pause_ms: 0,
            log_response: false,
        },
    );
    steps.push(
        Step {
            call: delete_item(keys),
            expect: Expectation::Counted(1),
            pause_ms: 0,
            log_response: false,
        },
    );
    steps.push(probe_step("ping 0"));
    steps.push(probe_step("ping 1"));
    steps.push(probe_step("ping 2"));
    steps.push(
        Step { call: ping(None), expect: Expectation::Acknowledged, pause_ms: 0, log_response: false },
    );
    assert(steps_view(steps@) == script());
    steps
}

/// A probe that carries `message`, expects it back, and is followed by the
/// pause.
fn probe_step(message: &str) -> (step: Step)
    ensures
        step@ == (StepView {
            call: RequestView::Ping { message: Some(message@) },
            expect: ExpectationView::Echoed(message@),
            pause_ms: PROBE_PAUSE_MS,
            log_response: true,
        }),
{
    Step {
        call: ping(Some(String::from_str(message))),
        expect: Expectation::Echoed(String::from_str(message)),
        pause_ms: PROBE_PAUSE_MS,
        log_response: true,
    }
}

impl Expectation {
    /// Whether `response` is what this expectation asks for.
    pub fn met_by(&self, response: &Option<Response>) -> (ok: bool)
        ensures
            ok == met(
                self@,
                match *response {
                    Some(r) => Some(r@),
                    None => None,
                },
            ),
    {
        match self {
            Expectation::Unchecked => true,
            Expectation::Confirmed(message) => match response {
                Some(Response::SetItem(r)) => same_text(r.message.as_str(), message.as_str()),
                _ => false,
            },
            Expectation::Valued(value) => match response {
                Some(Response::GetItem(r)) => same_text(r.value.as_str(), value.as_str()),
                _ => false,
            },
            Expectation::Counted(count) => match response {
                Some(Response::DeleteItem(r)) => r.count == *count,
                _ => false,
            },
            Expectation::Echoed(message) => match response {
                Some(Response::Ping(r)) => same_text(r.message.as_str(), message.as_str()),
                _ => false,
            },
            Expectation::Acknowledged => match response {
                Some(Response::Ping(r)) => reads_in_lower_case(r.message.as_str(), "pong"),
                _ => false,
            },
        }
    }
}

impl Startup {
    /// A run of the startup script, before its first step.
    pub fn new() -> (startup: Startup)
        ensures
            startup@ == StartupView::start(script()),
    {
        Startup { script: startup_script(), passed: 0, failed: false }
    }

    /// A run of `script`, before its first step.
    pub fn with_script(script: Vec<Step>) -> (startup: Startup)
        ensures
            startup@ == StartupView::start(steps_view(script@)),
    {
        Startup { script, passed: 0, failed: false }
    }

    /// How many steps have passed.
    pub fn passed(&self) -> (n: usize)
        ensures
            n == self@.passed,
    {
        self.passed
    }

    /// Whether a step has failed.
    pub fn failed(&self) -> (b: bool)
        ensures
            b == self@.failed,
    {
        self.failed
    }

    /// How the run stands.
    pub fn verdict(&self) -> (verdict: Verdict)
        ensures
            verdict == self@.verdict(),
    {
        if self.failed {
            Verdict::Abort
        } else if self.passed < self.script.len() {
            Verdict::Proceed
        } else {
            Verdict::Finished
        }
    }

    /// The step whose call is to be made next.
    pub fn pending(&self) -> (step: Option<&Step>)
        ensures
            match step {
                Some(s) => self@.pending() == Some(s@),
                None => self@.pending() is None,
            },
    {
        if !self.failed && self.passed < self.script.len() {
            Some(&self.script[self.passed])
        } else {
            None
        }
    }

    /// Takes what came back for the pending step, and says what to do with
    /// it.
    pub fn record(&mut self, outcome: Result<Response, RpcFailure>) -> (report: StepReport)
        ensures
            (final(self)@, report@) == old(self)@.recorded(outcome_view(outcome)),
    {
        if self.failed || self.passed >= self.script.len() {
            return StepReport {
                response: None,
                failure: None,
                pause_ms: 0,
                log_response: false,
                verdict: self.verdict(),
            };
        }
        let step = &self.script[self.passed];
        let pause_ms = step.pause_ms;
        let log_response = step.log_response;
        let (response, failure) = if step.call.operation() == Operation::PostItem {
            match outcome {
                Ok(response) => (Some(response), None),
                Err(failure) => (None, Some(failure)),
            }
        } else {
            let end = settle(&step.call, outcome);
            (Some(end.response), end.failure)
        };
        if step.expect.met_by(&response) {
            self.passed = self.passed + 1;
        } else {
            self.failed = true;
        }
        StepReport { response, failure, pause_ms, log_response, verdict: self.verdict() }
    }
}

/// Once a step has failed, the run stays where it is: every later answer is
/// ignored and the verdict remains to abort.
pub proof fn law_failure_is_final(state: StartupView, outcome: OutcomeView)
    requires
        state.failed,
    ensures
        state.recorded(outcome).0 == state,
        state.recorded(outcome).1.verdict == Verdict::Abort,
{
}

/// After a series of answers a run has either failed or passed one step
/// for each answer, as far as the script goes.
pub proof fn law_progress(script: Seq<StepView>, outcomes: Seq<OutcomeView>)
    ensures
        ({
            let end = StartupView::start(script).after(outcomes);
            &&& end.script == script
            &&& end.passed <= script.len()
            &&& end.passed <= outcomes.len()
            &&& !end.failed ==> end.passed == outcomes.len() || end.passed == script.len()
        }),
    decreases outcomes.len(),
{
    if outcomes.len() > 0 {
        law_progress(script, outcomes.drop_last());
    }
}

/// A run gets through a series of answers, one for each step, if and only
/// if every answer is what its step expects.
pub proof fn law_finishes_iff_every_answer_is_met(
    script: Seq<StepView>,
    outcomes: Seq<OutcomeView>,
)
    requires
        outcomes.len() <= script.len(),
    ensures
        ({
            let end = StartupView::start(script).after(outcomes);
            !end.failed && end.passed == outcomes.len()
        }) <==> forall|i: int| 0 <= i < outcomes.len() ==> answer_met(script, outcomes, i),
    decreases outcomes.len(),
{
    if outcomes.len() > 0 {
        let before = outcomes.drop_last();
        let last = outcomes.len() - 1;
        law_finishes_iff_every_answer_is_met(script, before);
        law_progress(script, before);
        assert forall|i: int| 0 <= i < before.len() implies answer_met(script, before, i)
            == answer_met(script, outcomes, i) by {
            assert(before[i] == outcomes[i]);
        }
        let state = StartupView::start(script).after(before);
        if !state.failed && state.passed == before.len() {
            assert(state.recorded(outcomes.last()).0.failed == !answer_met(script, outcomes, last));
        }
    }
}

/// In the startup script, a call through a wrapper that fails makes its
/// step fail: the zero-valued response that stands in for the answer is
/// never what the script expects.
pub proof fn law_failed_call_aborts(state: StartupView, detail: Seq<char>)
    requires
        state.script == script(),
        state.pending() matches Some(step) && step.call.operation() != Operation::PostItem,
    ensures
        state.recorded(Err(detail)).1.verdict == Verdict::Abort,
        state.recorded(Err(detail)).0.failed,
{
    reveal_strlit("OK");
    reveal_strlit("value");
    reveal_strlit("ping 0");
    reveal_strlit("ping 1");
    reveal_strlit("ping 2");
    reveal_strlit("pong");
    assert(lowered(Seq::<char>::empty()).len() == 0);
}

/// A failed post is tolerated: the first step of the startup script
/// passes whatever came back.
pub proof fn law_post_is_unchecked(outcome: OutcomeView)
    ensures
        StartupView::start(script()).recorded(outcome).1.verdict == Verdict::Proceed,
        StartupView::start(script()).recorded(outcome).0 == (StartupView {
            script: script(),
            passed: 1,
            failed: false,
        }),
{
}

/// A service that cannot be reached never lets the startup script finish:
/// where any call behind the post fails, a step fails.
pub proof fn law_unreachable_service_is_fatal(outcomes: Seq<OutcomeView>, index: int)
    requires
        outcomes.len() == script().len(),
        0 < index < outcomes.len(),
        outcomes[index] is Err,
    ensures
        StartupView::start(script()).after(outcomes).failed,
{
    law_finishes_iff_every_answer_is_met(script(), outcomes);
    law_progress(script(), outcomes);
    let state = StartupView { script: script(), passed: index as nat, failed: false };
    law_failed_call_aborts(state, outcomes[index]->Err_0);
    assert(!answer_met(script(), outcomes, index));
}

} // verus!
