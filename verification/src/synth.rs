//! The body of a blocking wrapper, and the text that it is written as.

use vstd::prelude::*;
use vstd::string::*;

use crate::backend::{BackendProfile, BlockingEntry, SetupStatement};
use crate::model::{
    clone_strings, strings_view, BlockingBody, BlockingBodyView, BodyView, CallExpr, CallView,
    MethodBody, Qualifier, QualifierView,
};
use crate::plan::{CallPlan, CallPlanView};

verus! {

/// The call that a plan asks for: the asynchronous method, on the plan's
/// qualifier, with the forwarded arguments; written as an instance call
/// where the method takes a receiver, as a qualified call where not.
pub open spec fn spec_call(plan: CallPlanView) -> CallView {
    CallView {
        qualifier: plan.qualifier,
        instance: plan.has_receiver,
        method: plan.original_name,
        args: plan.forwarded_args,
    }
}

/// The wrapper's body for a plan and a backend: the backend's setup, then
/// the backend's entry point applied to the planned call.
pub open spec fn spec_synthesize(plan: CallPlanView, profile: BackendProfile) -> BodyView {
    BodyView::Blocking(
        BlockingBodyView {
            setup: profile.spec_setup(),
            entry: profile.spec_entry(),
            call: spec_call(plan),
        },
    )
}

/// Builds the call that a plan asks for.
pub fn call_expr(plan: &CallPlan) -> (r: CallExpr)
    ensures
        r@ == spec_call(plan@),
{
    CallExpr {
        qualifier: plan.qualifier.clone(),
        instance: plan.has_receiver,
        method: plan.original_name.clone(),
        args: clone_strings(&plan.forwarded_args),
    }
}

/// Builds the wrapper's body for a plan and a backend.
pub fn synthesize(plan: &CallPlan, profile: BackendProfile) -> (r: MethodBody)
    ensures
        r@ == spec_synthesize(plan@, profile),
{
    MethodBody::Blocking(
        BlockingBody { setup: profile.setup(), entry: profile.entry(), call: call_expr(plan) },
    )
}

/// The parts in order, with the separator between each two of them.
pub open spec fn join(parts: Seq<Seq<char>>, sep: Seq<char>) -> Seq<char>
    decreases parts.len(),
{
    if parts.len() == 0 {
        Seq::empty()
    } else if parts.len() == 1 {
        parts[0]
    } else {
        join(parts.drop_last(), sep) + sep + parts.last()
    }
}

/// The text of a qualifier: `self`, or the type's name.
pub open spec fn qualifier_text(qualifier: QualifierView) -> Seq<char> {
    match qualifier {
        QualifierView::Receiver => "self"@,
        QualifierView::Type(name) => name,
    }
}

/// The text of a call: `q.m(a, b)` for an instance call, `q::m(a, b)` for
/// a qualified one.
pub open spec fn call_text(call: CallView) -> Seq<char> {
    qualifier_text(call.qualifier) + (if call.instance {
        "."@
    } else {
        "::"@
    }) + call.method + "("@ + join(call.args, ", "@) + ")"@
}

/// The text of a setup statement.
pub open spec fn setup_text(statement: SetupStatement) -> Seq<char> {
    match statement {
        SetupStatement::UseRuntime => "use tokio::runtime::Runtime;"@,
        SetupStatement::NewRuntime => "let mut rt = Runtime::new().unwrap();"@,
        SetupStatement::UseTask => "use async_std::task;"@,
    }
}

/// The text of the setup: each statement, followed by a space.
pub open spec fn statements_text(setup: Seq<SetupStatement>) -> Seq<char>
    decreases setup.len(),
{
    if setup.len() == 0 {
        Seq::empty()
    } else {
        statements_text(setup.drop_last()) + setup_text(setup.last()) + " "@
    }
}

/// The text of an entry point, up to its argument list.
pub open spec fn entry_text(entry: BlockingEntry) -> Seq<char> {
    match entry {
        BlockingEntry::OnRuntime => "rt.block_on"@,
        BlockingEntry::GlobalTask => "task::block_on"@,
    }
}

/// The text of a wrapper's body: a block that holds the setup and ends in
/// the entry point applied to the call.
pub open spec fn blocking_text(body: BlockingBodyView) -> Seq<char> {
    "{ "@ + statements_text(body.setup) + entry_text(body.entry) + "("@ + call_text(body.call)
        + ") }"@
}

/// The text of a body: a body carried as text is that text.
pub open spec fn body_text(body: BodyView) -> Seq<char> {
    match body {
        BodyView::Verbatim(text) => text,
        BodyView::Blocking(blocking) => blocking_text(blocking),
    }
}

/// Joins the parts with the separator between each two of them.
pub fn join_strings(parts: &Vec<String>, sep: &str) -> (r: String)
    ensures
        r@ == join(strings_view(parts@), sep@),
{
    let ghost all = strings_view(parts@);
    let mut out = String::new();
    let mut i: usize = 0;
    while i < parts.len()
        invariant
            i <= parts.len(),
            all == strings_view(parts@),
            out@ == join(all.take(i as int), sep@),
        decreases parts.len() - i,
    {
        proof {
            assert(all.take(i + 1).drop_last() =~= all.take(i as int));
            assert(all.take(i + 1).last() == parts@[i as int]@);
        }
        if i > 0 {
            out.append(sep);
        }
        out.append(parts[i].as_str());
        i += 1;
    }
    proof {
        assert(all.take(parts@.len() as int) =~= all);
    }
    out
}

impl Qualifier {
    /// Writes the qualifier.
    pub fn render(&self) -> (r: String)
        ensures
            r@ == qualifier_text(self@),
    {
        match self {
            Qualifier::Receiver => String::from_str("self"),
            Qualifier::Type(name) => name.clone(),
        }
    }
}

impl CallExpr {
    /// Writes the call.
    pub fn render(&self) -> (r: String)
        ensures
            r@ == call_text(self@),
    {
        let mut out = self.qualifier.render();
        if self.instance {
            out.append(".");
        } else {
            out.append("::");
        }
        out.append(self.method.as_str());
        out.append("(");
        let args = join_strings(&self.args, ", ");
        out.append(args.as_str());
        out.append(")");
        out
    }
}

impl SetupStatement {
    /// Writes the statement.
    pub fn render(self) -> (r: &'static str)
        ensures
            r@ == setup_text(self),
    {
        match self {
            SetupStatement::UseRuntime => "use tokio::runtime::Runtime;",
            SetupStatement::NewRuntime => "let mut rt = Runtime::new().unwrap();",
            SetupStatement::UseTask => "use async_std::task;",
        }
    }
}

impl BlockingEntry {
    /// Writes the entry point, up to its argument list.
    pub fn render(self) -> (r: &'static str)
        ensures
            r@ == entry_text(self),
    {
        match self {
            BlockingEntry::OnRuntime => "rt.block_on",
            BlockingEntry::GlobalTask => "task::block_on",
        }
    }
}

impl BlockingBody {
    /// Writes the body as a block.
    pub fn render(&self) -> (r: String)
        ensures
            r@ == blocking_text(self@),
    {
        let mut out = String::from_str("{ ");
        let mut setup = String::new();
        let mut i: usize = 0;
        while i < self.setup.len()
            invariant
                i <= self.setup.len(),
                setup@ == statements_text(self.setup@.take(i as int)),
            decreases self.setup.len() - i,
        {
            proof {
                assert(self.setup@.take(i + 1).drop_last() =~= self.setup@.take(i as int));
            }
            setup.append(self.setup[i].render());
            setup.append(" ");
            i += 1;
        }
        proof {
            assert(self.setup@.take(self.setup@.len() as int) =~= self.setup@);
        }
        out.append(setup.as_str());
        out.append(self.entry.render());
        out.append("(");
        let call = self.call.render();
        out.append(call.as_str());
        out.append(") }");
        out
    }
}

impl MethodBody {
    /// Writes the body.
    pub fn render(&self) -> (r: String)
        ensures
            r@ == body_text(self@),
    {
        match self {
            MethodBody::Verbatim(text) => text.clone(),
            MethodBody::Blocking(body) => body.render(),
        }
    }
}

} // verus!
