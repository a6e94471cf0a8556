//! The driver of the hosted browser control: the steps by which the control
//! is made, embedded and loaded, the steps by which a script is run, and
//! what follows from the host's answer to each step.

use vstd::prelude::*;
use crate::dispatch::{DispatchParameters, Variant, DISPATCH_METHOD, VT_BSTR};
use crate::error::RuntimeError;
use crate::geometry::Rect;
use crate::status::S_OK;
use crate::utf16::{encode, encode_utf16};

verus! {

/// The verb that activates an embedded object in place.
pub const OLEIVERB_INPLACEACTIVATE: i32 = -5;

/// What the host answered to one step: the status code of the call, and
/// whether the call left a pointer behind.
#[derive(Clone, Copy, Debug, PartialEq, Eq, Structural)]
pub struct Answer {
    pub status: i32,
    pub present: bool,
}

/// The steps of setting up the browser control, in their order.
#[derive(Clone, Copy, Debug, PartialEq, Eq, Structural)]
pub enum SetupStep {
    /// Initialize the compound-document subsystem.
    Initialize,
    /// Make the browser control.
    CreateBrowser,
    /// Ask the control for its embedding interface.
    QueryOleObject,
    /// Ask the control for its in-place object.
    QueryInPlaceObject,
    /// Hand the client site to the control.
    SetClientSite,
    /// Activate the control in place.
    ActivateInPlace,
    /// Set the control's width to that of the window.
    PutWidth,
    /// Set the control's height to that of the window.
    PutHeight,
    /// Make the control visible.
    PutVisible,
    /// Navigate to the blank page.
    NavigateBlank,
    /// Ask the control for its document.
    GetDocument,
    /// Make a stream over the HTML document in memory.
    CreateStream,
    /// Ask the document for its stream loader.
    QueryPersistStream,
    /// Reset the stream loader.
    InitNew,
    /// Load the stream.
    Load,
}

/// The steps of running a script in the page, in their order.
#[derive(Clone, Copy, Debug, PartialEq, Eq, Structural)]
pub enum ExecuteStep {
    /// Ask the control for its document.
    GetDocument,
    /// Ask the document for its HTML interface.
    QueryHtmlDocument,
    /// Ask the document for its window.
    GetParentWindow,
    /// Ask the window for its dispatch interface.
    QueryWindowDispatch,
    /// Resolve the identifier of the window's `eval` method.
    ResolveEval,
    /// Call `eval` with the script.
    InvokeEval,
}

/// What a step is judged by.
#[derive(Clone, Copy, Debug, PartialEq, Eq, Structural)]
pub enum Judgement {
    /// Every answer passes.
    Nothing,
    /// The status must be `S_OK`.
    Status,
    /// A pointer must be there.
    Pointer,
    /// The status must be `S_OK` and a pointer must be there.
    StatusAndPointer,
}

impl Judgement {
    /// Whether `answer` passes.
    pub open spec fn spec_passes(self, answer: Answer) -> bool {
        match self {
            Judgement::Nothing => true,
            Judgement::Status => answer.status == S_OK,
            Judgement::Pointer => answer.present,
            Judgement::StatusAndPointer => answer.status == S_OK && answer.present,
        }
    }

    /// Whether `answer` passes.
    pub fn passes(self, answer: Answer) -> (yes: bool)
        ensures
            yes == self.spec_passes(answer),
    {
        match self {
            Judgement::Nothing => true,
            Judgement::Status => answer.status == S_OK,
            Judgement::Pointer => answer.present,
            Judgement::StatusAndPointer => answer.status == S_OK && answer.present,
        }
    }
}

impl SetupStep {
    /// The place of the step in the order of the setup, from zero.
    pub open spec fn position(self) -> nat {
        match self {
            SetupStep::Initialize => 0,
            SetupStep::CreateBrowser => 1,
            SetupStep::QueryOleObject => 2,
            SetupStep::QueryInPlaceObject => 3,
            SetupStep::SetClientSite => 4,
            SetupStep::ActivateInPlace => 5,
            SetupStep::PutWidth => 6,
            SetupStep::PutHeight => 7,
            SetupStep::PutVisible => 8,
            SetupStep::NavigateBlank => 9,
            SetupStep::GetDocument => 10,
            SetupStep::CreateStream => 11,
            SetupStep::QueryPersistStream => 12,
            SetupStep::InitNew => 13,
            SetupStep::Load => 14,
        }
    }

    /// What the step is judged by.
    pub open spec fn spec_judgement(self) -> Judgement {
        match self {
            SetupStep::Initialize => Judgement::Nothing,
            SetupStep::CreateBrowser => Judgement::StatusAndPointer,
            SetupStep::QueryOleObject => Judgement::Pointer,
            SetupStep::QueryInPlaceObject => Judgement::Pointer,
            SetupStep::SetClientSite => Judgement::Status,
            SetupStep::ActivateInPlace => Judgement::Status,
            SetupStep::PutWidth => Judgement::Status,
            SetupStep::PutHeight => Judgement::Status,
            SetupStep::PutVisible => Judgement::Status,
            SetupStep::NavigateBlank => Judgement::Status,
            SetupStep::GetDocument => Judgement::StatusAndPointer,
            SetupStep::CreateStream => Judgement::Pointer,
            SetupStep::QueryPersistStream => Judgement::Pointer,
            SetupStep::InitNew => Judgement::Status,
            SetupStep::Load => Judgement::Status,
        }
    }

    /// The step that follows; `None` after the last.
    pub open spec fn spec_successor(self) -> Option<SetupStep> {
        match self {
            SetupStep::Initialize => Some(SetupStep::CreateBrowser),
            SetupStep::CreateBrowser => Some(SetupStep::QueryOleObject),
            SetupStep::QueryOleObject => Some(SetupStep::QueryInPlaceObject),
            SetupStep::QueryInPlaceObject => Some(SetupStep::SetClientSite),
            SetupStep::SetClientSite => Some(SetupStep::ActivateInPlace),
            SetupStep::ActivateInPlace => Some(SetupStep::PutWidth),
            SetupStep::PutWidth => Some(SetupStep::PutHeight),
            SetupStep::PutHeight => Some(SetupStep::PutVisible),
            SetupStep::PutVisible => Some(SetupStep::NavigateBlank),
            SetupStep::NavigateBlank => Some(SetupStep::GetDocument),
            SetupStep::GetDocument => Some(SetupStep::CreateStream),
            SetupStep::CreateStream => Some(SetupStep::QueryPersistStream),
            SetupStep::QueryPersistStream => Some(SetupStep::InitNew),
            SetupStep::InitNew => Some(SetupStep::Load),
            SetupStep::Load => None,
        }
    }

    /// The description of the failure of the step.
    pub open spec fn spec_failure(self) -> Seq<char> {
        match self {
            SetupStep::Initialize => "Couldn't initialize the compound-document subsystem"@,
            SetupStep::CreateBrowser => "Couldn't get an instance of the 'IWebBrowser2' class"@,
            SetupStep::QueryOleObject => "Couldn't get an instance of the 'IOleObject' class"@,
            SetupStep::QueryInPlaceObject =>
                "Couldn't get an instance of the 'IOleInPlaceObject' class"@,
            SetupStep::SetClientSite => "Couldn't reveal an HTML browser"@,
            SetupStep::ActivateInPlace => "Couldn't reveal an HTML browser"@,
            SetupStep::PutWidth => "Couldn't reveal an HTML browser"@,
            SetupStep::PutHeight => "Couldn't reveal an HTML browser"@,
            SetupStep::PutVisible => "Couldn't reveal an HTML browser"@,
            SetupStep::NavigateBlank => "Couldn't open a blank page"@,
            SetupStep::GetDocument =>
                "The 'IWebBrowser2::get_Document' method returned an error"@,
            SetupStep::CreateStream => "Couldn't get an instance of the 'IStream' class"@,
            SetupStep::QueryPersistStream =>
                "Couldn't get an instance of the 'IPersistStreamInit' class"@,
            SetupStep::InitNew => "Couldn't load an HTML document"@,
            SetupStep::Load => "Couldn't load an HTML document"@,
        }
    }

    /// The first step.
    pub fn first() -> (step: SetupStep)
        ensures
            step == SetupStep::Initialize,
            step.position() == 0,
    {
        SetupStep::Initialize
    }

    /// What the step is judged by.
    pub fn judgement(self) -> (judgement: Judgement)
        ensures
            judgement == self.spec_judgement(),
    {
        match self {
            SetupStep::Initialize => Judgement::Nothing,
            SetupStep::CreateBrowser => Judgement::StatusAndPointer,
            SetupStep::QueryOleObject => Judgement::Pointer,
            SetupStep::QueryInPlaceObject => Judgement::Pointer,
            SetupStep::SetClientSite => Judgement::Status,
            SetupStep::ActivateInPlace => Judgement::Status,
            SetupStep::PutWidth => Judgement::Status,
            SetupStep::PutHeight => Judgement::Status,
            SetupStep::PutVisible => Judgement::Status,
            SetupStep::NavigateBlank => Judgement::Status,
            SetupStep::GetDocument => Judgement::StatusAndPointer,
            SetupStep::CreateStream => Judgement::Pointer,
            SetupStep::QueryPersistStream => Judgement::Pointer,
            SetupStep::InitNew => Judgement::Status,
            SetupStep::Load => Judgement::Status,
        }
    }

    /// The step that follows; `None` after the last.
    pub fn successor(self) -> (next: Option<SetupStep>)
        ensures
            next == self.spec_successor(),
            next is Some ==> next.unwrap().position() == self.position() + 1,
            next is None <==> self == SetupStep::Load,
    {
        match self {
            SetupStep::Initialize => Some(SetupStep::CreateBrowser),
            SetupStep::CreateBrowser => Some(SetupStep::QueryOleObject),
            SetupStep::QueryOleObject => Some(SetupStep::QueryInPlaceObject),
            SetupStep::QueryInPlaceObject => Some(SetupStep::SetClientSite),
            SetupStep::SetClientSite => Some(SetupStep::ActivateInPlace),
            SetupStep::ActivateInPlace => Some(SetupStep::PutWidth),
            SetupStep::PutWidth => Some(SetupStep::PutHeight),
            SetupStep::PutHeight => Some(SetupStep::PutVisible),
            SetupStep::PutVisible => Some(SetupStep::NavigateBlank),
            SetupStep::NavigateBlank => Some(SetupStep::GetDocument),
            SetupStep::GetDocument => Some(SetupStep::CreateStream),
            SetupStep::CreateStream => Some(SetupStep::QueryPersistStream),
            SetupStep::QueryPersistStream => Some(SetupStep::InitNew),
            SetupStep::InitNew => Some(SetupStep::Load),
            SetupStep::Load => None,
        }
    }

    /// The failure of the step, as an error.
    pub fn failure(self) -> (error: RuntimeError)
        ensures
            error@ == self.spec_failure(),
    {
        match self {
            SetupStep::Initialize => RuntimeError::new(
                "Couldn't initialize the compound-document subsystem",
            ),
            SetupStep::CreateBrowser => RuntimeError::new(
                "Couldn't get an instance of the 'IWebBrowser2' class",
            ),
            SetupStep::QueryOleObject => RuntimeError::new(
                "Couldn't get an instance of the 'IOleObject' class",
            ),
            SetupStep::QueryInPlaceObject => RuntimeError::new(
                "Couldn't get an instance of the 'IOleInPlaceObject' class",
            ),
            SetupStep::SetClientSite => RuntimeError::new("Couldn't reveal an HTML browser"),
            SetupStep::ActivateInPlace => RuntimeError::new("Couldn't reveal an HTML browser"),
            SetupStep::PutWidth => RuntimeError::new("Couldn't reveal an HTML browser"),
            SetupStep::PutHeight => RuntimeError::new("Couldn't reveal an HTML browser"),
            SetupStep::PutVisible => RuntimeError::new("Couldn't reveal an HTML browser"),
            SetupStep::NavigateBlank => RuntimeError::new("Couldn't open a blank page"),
            SetupStep::GetDocument => RuntimeError::new(
                "The 'IWebBrowser2::get_Document' method returned an error",
            ),
            SetupStep::CreateStream => RuntimeError::new(
                "Couldn't get an instance of the 'IStream' class",
            ),
            SetupStep::QueryPersistStream => RuntimeError::new(
                "Couldn't get an instance of the 'IPersistStreamInit' class",
            ),
            SetupStep::InitNew => RuntimeError::new("Couldn't load an HTML document"),
            SetupStep::Load => RuntimeError::new("Couldn't load an HTML document"),
        }
    }

    /// What follows from the host's answer to the step: the next step, the
    /// end of the setup, or the failure of this step. There is no second
    /// try.
    pub fn advance(self, answer: Answer) -> (next: Result<Option<SetupStep>, RuntimeError>)
        ensures
            self.spec_judgement().spec_passes(answer) ==> next == Ok::<
                Option<SetupStep>,
                RuntimeError,
            >(self.spec_successor()),
            !self.spec_judgement().spec_passes(answer) ==> next is Err && next.unwrap_err()@
                == self.spec_failure(),
    {
        if self.judgement().passes(answer) {
            Ok(self.successor())
        } else {
            Err(self.failure())
        }
    }
}

/// How a sequence of steps ends.
#[derive(Clone, Copy, Debug, PartialEq, Eq, Structural)]
pub enum End<Step> {
    /// Every step to the last has passed.
    Done,
    /// The step failed, after all before it had passed.
    Failed(Step),
    /// The answers ran out at the step, after all before it had passed.
    Unanswered(Step),
}

/// How the setup ends when the host gives `answers` to the steps from
/// `step` on. Answers beyond the end are not looked at.
pub open spec fn setup_end(step: SetupStep, answers: Seq<Answer>) -> End<SetupStep>
    decreases answers.len(),
{
    if answers.len() == 0 {
        End::Unanswered(step)
    } else if !step.spec_judgement().spec_passes(answers[0]) {
        End::Failed(step)
    } else {
        match step.spec_successor() {
            Some(next) => setup_end(next, answers.drop_first()),
            None => End::Done,
        }
    }
}

/// Runs the setup over the answers of the host, from the first step on, as
/// `setup_end` says. It succeeds when every step has passed; the step that
/// failed, or that got no answer, gives the error.
pub fn new_browser(answers: &Vec<Answer>) -> (browser: Result<(), RuntimeError>)
    ensures
        match setup_end(SetupStep::Initialize, answers@) {
            End::Done => browser is Ok,
            End::Failed(step) => browser is Err && browser.unwrap_err()@ == step.spec_failure(),
            End::Unanswered(step) => browser is Err && browser.unwrap_err()@
                == step.spec_failure(),
        },
{
    let mut step = SetupStep::first();
    let mut i: usize = 0;
    assert(answers@.skip(0) =~= answers@);
    while i < answers.len()
        invariant
            i <= answers.len(),
            setup_end(SetupStep::Initialize, answers@) == setup_end(
                step,
                answers@.skip(i as int),
            ),
        decreases answers.len() - i,
    {
        let ghost rest = answers@.skip(i as int);
        assert(rest[0] == answers@[i as int]);
        assert(rest.drop_first() =~= answers@.skip(i + 1));
        match step.advance(answers[i]) {
            Ok(Some(next)) => {
                step = next;
            },
            Ok(None) => {
                return Ok(());
            },
            Err(error) => {
                return Err(error);
            },
        }
        i = i + 1;
    }
    assert(answers@.skip(i as int).len() == 0);
    Err(step.failure())
}

/// The setup succeeds exactly when the host has answered all fifteen steps
/// and every answer has passed.
pub proof fn lemma_setup_done(answers: Seq<Answer>)
    ensures
        setup_end(SetupStep::Initialize, answers) == End::<SetupStep>::Done <==> {
            &&& answers.len() >= 15
            &&& forall|step: SetupStep| #[trigger]
                step.spec_judgement().spec_passes(answers[step.position() as int])
        },
{
    lemma_setup_from(SetupStep::Initialize, answers);
    let first = SetupStep::Initialize;
    if setup_end(first, answers) == End::<SetupStep>::Done {
        assert forall|step: SetupStep| #[trigger]
            step.spec_judgement().spec_passes(answers[step.position() as int]) by {
            assert(step.position() >= first.position());
            assert(step.spec_judgement().spec_passes(answers[step.position() - first.position()]));
        }
    }
    if answers.len() >= 15 && forall|step: SetupStep| #[trigger]
        step.spec_judgement().spec_passes(answers[step.position() as int]) {
        assert forall|later: SetupStep|
            later.position() >= first.position() implies #[trigger] later.spec_judgement().spec_passes(
            answers[later.position() - first.position()],
        ) by {
            assert(later.spec_judgement().spec_passes(answers[later.position() as int]));
        }
    }
}

/// The setup from `step` on succeeds exactly when the host has answered
/// that step and all after it, and every answer has passed.
pub proof fn lemma_setup_from(step: SetupStep, answers: Seq<Answer>)
    ensures
        setup_end(step, answers) == End::<SetupStep>::Done <==> {
            &&& answers.len() >= 15 - step.position()
            &&& forall|later: SetupStep|
                later.position() >= step.position() ==> #[trigger] later.spec_judgement().spec_passes(
                    answers[later.position() - step.position()],
                )
        },
    decreases answers.len(),
{
    if answers.len() > 0 && step.spec_judgement().spec_passes(answers[0]) {
        match step.spec_successor() {
            Some(next) => {
                lemma_setup_from(next, answers.drop_first());
                let rest = answers.drop_first();
                if setup_end(step, answers) == End::<SetupStep>::Done {
                    assert forall|later: SetupStep|
                        later.position() >= step.position() implies #[trigger] later.spec_judgement().spec_passes(
                        answers[later.position() - step.position()],
                    ) by {
                        if later.position() > step.position() {
                            assert(later.position() >= next.position());
                            assert(rest[later.position() - next.position()]
                                == answers[later.position() - step.position()]);
                        } else {
                            assert(later == step);
                        }
                    }
                } else {
                    if answers.len() >= 15 - step.position() {
                        if rest.len() >= 15 - next.position() {
                            let bad = choose|later: SetupStep|
                                later.position() >= next.position()
                                    && !#[trigger] later.spec_judgement().spec_passes(
                                    rest[later.position() - next.position()],
                                );
                            assert(rest[bad.position() - next.position()]
                                == answers[bad.position() - step.position()]);
                            assert(!bad.spec_judgement().spec_passes(
                                answers[bad.position() - step.position()],
                            ));
                        }
                    }
                }
            },
            None => {
                assert forall|later: SetupStep|
                    later.position() >= step.position() implies #[trigger] later.spec_judgement().spec_passes(
                    answers[later.position() - step.position()],
                ) by {
                    assert(later == step);
                }
            },
        }
    } else if answers.len() > 0 {
        assert(!step.spec_judgement().spec_passes(answers[step.position() - step.position()]));
    }
}

impl ExecuteStep {
    /// The place of the step in the order of a script's run, from zero.
    pub open spec fn position(self) -> nat {
        match self {
            ExecuteStep::GetDocument => 0,
            ExecuteStep::QueryHtmlDocument => 1,
            ExecuteStep::GetParentWindow => 2,
            ExecuteStep::QueryWindowDispatch => 3,
            ExecuteStep::ResolveEval => 4,
            ExecuteStep::InvokeEval => 5,
        }
    }

    /// What the step is judged by.
    pub open spec fn spec_judgement(self) -> Judgement {
        match self {
            ExecuteStep::GetDocument => Judgement::StatusAndPointer,
            ExecuteStep::QueryHtmlDocument => Judgement::Pointer,
            ExecuteStep::GetParentWindow => Judgement::Status,
            ExecuteStep::QueryWindowDispatch => Judgement::Pointer,
            ExecuteStep::ResolveEval => Judgement::Status,
            ExecuteStep::InvokeEval => Judgement::Status,
        }
    }

    /// The step that follows; `None` after the last.
    pub open spec fn spec_successor(self) -> Option<ExecuteStep> {
        match self {
            ExecuteStep::GetDocument => Some(ExecuteStep::QueryHtmlDocument),
            ExecuteStep::QueryHtmlDocument => Some(ExecuteStep::GetParentWindow),
            ExecuteStep::GetParentWindow => Some(ExecuteStep::QueryWindowDispatch),
            ExecuteStep::QueryWindowDispatch => Some(ExecuteStep::ResolveEval),
            ExecuteStep::ResolveEval => Some(ExecuteStep::InvokeEval),
            ExecuteStep::InvokeEval => None,
        }
    }

    /// The description of the failure of the step.
    pub open spec fn spec_failure(self) -> Seq<char> {
        match self {
            ExecuteStep::GetDocument =>
                "The 'IWebBrowser2::get_Document' method returned an error"@,
            ExecuteStep::QueryHtmlDocument =>
                "Couldn't get an instance of the 'IDispatch' class for the document window"@,
            ExecuteStep::GetParentWindow =>
                "Couldn't get an instance of the 'IDispatch' class for the document window"@,
            ExecuteStep::QueryWindowDispatch =>
                "Couldn't get an instance of the 'IDispatch' class for the document window"@,
            ExecuteStep::ResolveEval => "Couldn't get an ID for the 'eval' method"@,
            ExecuteStep::InvokeEval => "Execution of the Javascript code failed"@,
        }
    }

    /// The first step.
    pub fn first() -> (step: ExecuteStep)
        ensures
            step == ExecuteStep::GetDocument,
            step.position() == 0,
    {
        ExecuteStep::GetDocument
    }

    /// What the step is judged by.
    pub fn judgement(self) -> (judgement: Judgement)
        ensures
            judgement == self.spec_judgement(),
    {
        match self {
            ExecuteStep::GetDocument => Judgement::StatusAndPointer,
            ExecuteStep::QueryHtmlDocument => Judgement::Pointer,
            ExecuteStep::GetParentWindow => Judgement::Status,
            ExecuteStep::QueryWindowDispatch => Judgement::Pointer,
            ExecuteStep::ResolveEval => Judgement::Status,
            ExecuteStep::InvokeEval => Judgement::Status,
        }
    }

    /// The step that follows; `None` after the last.
    pub fn successor(self) -> (next: Option<ExecuteStep>)
        ensures
            next == self.spec_successor(),
            next is Some ==> next.unwrap().position() == self.position() + 1,
            next is None <==> self == ExecuteStep::InvokeEval,
    {
        match self {
            ExecuteStep::GetDocument => Some(ExecuteStep::QueryHtmlDocument),
            ExecuteStep::QueryHtmlDocument => Some(ExecuteStep::GetParentWindow),
            ExecuteStep::GetParentWindow => Some(ExecuteStep::QueryWindowDispatch),
            ExecuteStep::QueryWindowDispatch => Some(ExecuteStep::ResolveEval),
            ExecuteStep::ResolveEval => Some(ExecuteStep::InvokeEval),
            ExecuteStep::InvokeEval => None,
        }
    }

    /// The failure of the step, as an error.
    pub fn failure(self) -> (error: RuntimeError)
        ensures
            error@ == self.spec_failure(),
    {
        match self {
            ExecuteStep::GetDocument => RuntimeError::new(
                "The 'IWebBrowser2::get_Document' method returned an error",
            ),
            ExecuteStep::QueryHtmlDocument => RuntimeError::new(
                "Couldn't get an instance of the 'IDispatch' class for the document window",
            ),
            ExecuteStep::GetParentWindow => RuntimeError::new(
                "Couldn't get an instance of the 'IDispatch' class for the document window",
            ),
            ExecuteStep::QueryWindowDispatch => RuntimeError::new(
                "Couldn't get an instance of the 'IDispatch' class for the document window",
            ),
            ExecuteStep::ResolveEval => RuntimeError::new(
                "Couldn't get an ID for the 'eval' method",
            ),
            ExecuteStep::InvokeEval => RuntimeError::new("Execution of the Javascript code failed"),
        }
    }

    /// What follows from the host's answer to the step: the next step, the
    /// end of the run, or the failure of this step.
    pub fn advance(self, answer: Answer) -> (next: Result<Option<ExecuteStep>, RuntimeError>)
        ensures
            self.spec_judgement().spec_passes(answer) ==> next == Ok::<
                Option<ExecuteStep>,
                RuntimeError,
            >(self.spec_successor()),
            !self.spec_judgement().spec_passes(answer) ==> next is Err && next.unwrap_err()@
                == self.spec_failure(),
    {
        if self.judgement().passes(answer) {
            Ok(self.successor())
        } else {
            Err(self.failure())
        }
    }
}

/// How a script's run ends when the host gives `answers` to the steps from
/// `step` on. Answers beyond the end are not looked at.
pub open spec fn execute_end(step: ExecuteStep, answers: Seq<Answer>) -> End<ExecuteStep>
    decreases answers.len(),
{
    if answers.len() == 0 {
        End::Unanswered(step)
    } else if !step.spec_judgement().spec_passes(answers[0]) {
        End::Failed(step)
    } else {
        match step.spec_successor() {
            Some(next) => execute_end(next, answers.drop_first()),
            None => End::Done,
        }
    }
}

/// Runs a script over the answers of the host, from the first step on, as
/// `execute_end` says. It succeeds when every step has passed; the step that
/// failed, or that got no answer, gives the error.
pub fn execute(answers: &Vec<Answer>) -> (run: Result<(), RuntimeError>)
    ensures
        match execute_end(ExecuteStep::GetDocument, answers@) {
            End::Done => run is Ok,
            End::Failed(step) => run is Err && run.unwrap_err()@ == step.spec_failure(),
            End::Unanswered(step) => run is Err && run.unwrap_err()@ == step.spec_failure(),
        },
{
    let mut step = ExecuteStep::first();
    let mut i: usize = 0;
    assert(answers@.skip(0) =~= answers@);
    while i < answers.len()
        invariant
            i <= answers.len(),
            execute_end(ExecuteStep::GetDocument, answers@) == execute_end(
                step,
                answers@.skip(i as int),
            ),
        decreases answers.len() - i,
    {
        let ghost rest = answers@.skip(i as int);
        assert(rest[0] == answers@[i as int]);
        assert(rest.drop_first() =~= answers@.skip(i + 1));
        match step.advance(answers[i]) {
            Ok(Some(next)) => {
                step = next;
            },
            Ok(None) => {
                return Ok(());
            },
            Err(error) => {
                return Err(error);
            },
        }
        i = i + 1;
    }
    assert(answers@.skip(i as int).len() == 0);
    Err(step.failure())
}

/// A script's run succeeds exactly when the host has answered all six steps
/// and every answer has passed.
pub proof fn lemma_execute_done(answers: Seq<Answer>)
    ensures
        execute_end(ExecuteStep::GetDocument, answers) == End::<ExecuteStep>::Done <==> {
            &&& answers.len() >= 6
            &&& forall|step: ExecuteStep| #[trigger]
                step.spec_judgement().spec_passes(answers[step.position() as int])
        },
{
    lemma_execute_from(ExecuteStep::GetDocument, answers);
    let first = ExecuteStep::GetDocument;
    if execute_end(first, answers) == End::<ExecuteStep>::Done {
        assert forall|step: ExecuteStep| #[trigger]
            step.spec_judgement().spec_passes(answers[step.position() as int]) by {
            assert(step.position() >= first.position());
            assert(step.spec_judgement().spec_passes(answers[step.position() - first.position()]));
        }
    }
    if answers.len() >= 6 && forall|step: ExecuteStep| #[trigger]
        step.spec_judgement().spec_passes(answers[step.position() as int]) {
        assert forall|later: ExecuteStep|
            later.position() >= first.position() implies #[trigger] later.spec_judgement().spec_passes(
            answers[later.position() - first.position()],
        ) by {
            assert(later.spec_judgement().spec_passes(answers[later.position() as int]));
        }
    }
}

/// A script's run from `step` on succeeds exactly when the host has answered
/// that step and all after it, and every answer has passed.
pub proof fn lemma_execute_from(step: ExecuteStep, answers: Seq<Answer>)
    ensures
        execute_end(step, answers) == End::<ExecuteStep>::Done <==> {
            &&& answers.len() >= 6 - step.position()
            &&& forall|later: ExecuteStep|
                later.position() >= step.position() ==> #[trigger] later.spec_judgement().spec_passes(
                    answers[later.position() - step.position()],
                )
        },
    decreases answers.len(),
{
    if answers.len() > 0 && step.spec_judgement().spec_passes(answers[0]) {
        match step.spec_successor() {
            Some(next) => {
                lemma_execute_from(next, answers.drop_first());
                let rest = answers.drop_first();
                if execute_end(step, answers) == End::<ExecuteStep>::Done {
                    assert forall|later: ExecuteStep|
                        later.position() >= step.position() implies #[trigger] later.spec_judgement().spec_passes(
                        answers[later.position() - step.position()],
                    ) by {
                        if later.position() > step.position() {
                            assert(later.position() >= next.position());
                            assert(rest[later.position() - next.position()]
                                == answers[later.position() - step.position()]);
                        } else {
                            assert(later == step);
                        }
                    }
                } else {
                    if answers.len() >= 6 - step.position() {
                        if rest.len() >= 6 - next.position() {
                            let bad = choose|later: ExecuteStep|
                                later.position() >= next.position()
                                    && !#[trigger] later.spec_judgement().spec_passes(
                                    rest[later.position() - next.position()],
                                );
                            assert(rest[bad.position() - next.position()]
                                == answers[bad.position() - step.position()]);
                            assert(!bad.spec_judgement().spec_passes(
                                answers[bad.position() - step.position()],
                            ));
                        }
                    }
                }
            },
            None => {
                assert forall|later: ExecuteStep|
                    later.position() >= step.position() implies #[trigger] later.spec_judgement().spec_passes(
                    answers[later.position() - step.position()],
                ) by {
                    assert(later == step);
                }
            },
        }
    } else if answers.len() > 0 {
        assert(!step.spec_judgement().spec_passes(answers[step.position() - step.position()]));
    }
}

/// The width and height to give the control inside a window with the client
/// rectangle `client`: the rectangle's right and bottom edge.
pub fn control_size(client: &Rect) -> (size: (i32, i32))
    ensures
        size == (client.right, client.bottom),
{
    (client.right, client.bottom)
}

/// The name of the method that runs a script, "eval", in UTF-16 units.
pub open spec fn eval_name() -> Seq<u16> {
    seq![0x0065u16, 0x0076u16, 0x0061u16, 0x006cu16]
}

/// The address of the blank page, to which the control navigates before a
/// document is loaded from memory.
pub open spec fn blank_page() -> Seq<char> {
    "about:blank"@
}

/// The units of the blank page's address.
pub fn blank_page_url() -> (url: Vec<u16>)
    ensures
        url@ == encode_utf16(blank_page()),
{
    encode("about:blank")
}

/// The units of the name "eval".
pub fn eval_method_name() -> (name: Vec<u16>)
    ensures
        name@ == eval_name(),
{
    let mut name: Vec<u16> = Vec::new();
    name.push(0x0065);
    name.push(0x0076);
    name.push(0x0061);
    name.push(0x006c);
    assert(name@ =~= eval_name());
    name
}

/// The arguments of the call that runs `script`: the script as the one
/// string value, and no named argument.
pub fn eval_parameters(script: &str) -> (parameters: DispatchParameters)
    ensures
        parameters.named_arguments == 0,
        parameters.arguments@.len() == 1,
        parameters.arguments@[0].vt == VT_BSTR,
        parameters.arguments@[0].text@ == encode_utf16(script@),
{
    let mut arguments: Vec<Variant> = Vec::new();
    arguments.push(Variant::string(encode(script)));
    DispatchParameters { arguments, named_arguments: 0 }
}

/// The access kind of the call that runs a script: a plain method call.
pub fn eval_flags() -> (flags: u16)
    ensures
        flags == DISPATCH_METHOD,
{
    DISPATCH_METHOD
}

} // verus!
