//! What holds of every transformation: the members pass through, each
//! asynchronous method gets one wrapper, and the wrapper calls the method
//! as it was declared.

use vstd::prelude::*;

use crate::backend::{BackendProfile, BlockingEntry, SetupStatement};
use crate::model::{
    BodyView, CollectionView, MemberView, ParameterView, QualifierView, SignatureView,
};
use crate::plan::{binding_pattern, spec_forwarded_args, spec_plan, CallPlanView};
use crate::synth::{body_text, call_text, join, spec_call, spec_synthesize, statements_text};
use crate::transform::{spec_block_on, spec_wrapper, spec_wrapper_for, spec_wrappers};

verus! {

/// The asynchronous methods among `members`, in order.
pub open spec fn async_methods(members: Seq<MemberView>) -> Seq<MemberView> {
    members.filter(|m: MemberView| m.is_async_method())
}

/// The wrapper of an asynchronous method, as a member.
pub open spec fn wrapper_member(
    owner: Seq<char>,
    profile: BackendProfile,
    member: MemberView,
) -> MemberView
    recommends
        member.is_async_method(),
{
    MemberView::Method(spec_wrapper(owner, member->Method_0.sig, profile))
}

/// The wrappers are the asynchronous methods, each replaced by its wrapper.
pub proof fn lemma_wrappers_follow_async_methods(
    owner: Seq<char>,
    profile: BackendProfile,
    members: Seq<MemberView>,
)
    ensures
        spec_wrappers(owner, profile, members) == async_methods(members).map_values(
            |m: MemberView| wrapper_member(owner, profile, m),
        ),
    decreases members.len(),
{
    let wrap = |m: MemberView| wrapper_member(owner, profile, m);
    if members.len() == 0 {
        reveal(Seq::filter);
        assert(spec_wrappers(owner, profile, members) =~= async_methods(members).map_values(wrap));
    } else {
        let rest = members.drop_last();
        let last = members.last();
        lemma_wrappers_follow_async_methods(owner, profile, rest);
        assert(members =~= rest.push(last));
        rest.lemma_filter_push(last, |m: MemberView| m.is_async_method());
        if last.is_async_method() {
            assert(spec_wrapper_for(owner, profile, last) == Some(wrap(last)));
            assert(spec_wrappers(owner, profile, members) =~= spec_wrappers(owner, profile, rest)
                + seq![wrap(last)]);
            assert(async_methods(members).map_values(wrap) =~= async_methods(rest).map_values(
                wrap,
            ).push(wrap(last)));
        } else {
            assert(spec_wrapper_for(owner, profile, last) is None);
        }
    }
}

/// An asynchronous method at position `i` is, among the asynchronous
/// methods, the one at the position that counts those before it.
pub proof fn lemma_async_method_position(members: Seq<MemberView>, i: int)
    requires
        0 <= i < members.len(),
        members[i].is_async_method(),
    ensures
        async_methods(members.take(i)).len() < async_methods(members).len(),
        async_methods(members)[async_methods(members.take(i)).len() as int] == members[i],
{
    let pred = |m: MemberView| m.is_async_method();
    let upto = members.take(i).push(members[i]);
    let after = members.skip(i + 1);
    assert(members =~= upto + after);
    Seq::filter_distributes_over_add(upto, after, pred);
    members.take(i).lemma_filter_push(members[i], pred);
}

/// Of two asynchronous methods, the earlier one has fewer asynchronous
/// methods before it.
pub proof fn lemma_async_position_increases(members: Seq<MemberView>, i: int, j: int)
    requires
        0 <= i < j <= members.len(),
        members[i].is_async_method(),
    ensures
        async_methods(members.take(i)).len() < async_methods(members.take(j)).len(),
{
    let pred = |m: MemberView| m.is_async_method();
    let upto = members.take(i).push(members[i]);
    let between = members.subrange(i + 1, j);
    assert(members.take(j) =~= upto + between);
    Seq::filter_distributes_over_add(upto, between, pred);
    members.take(i).lemma_filter_push(members[i], pred);
}

/// Every member passes through: the result keeps the owner, and begins
/// with the members of the collection, each unchanged and at its position.
/// What follows them is one member for each asynchronous method.
pub proof fn lemma_members_pass_through(profile: BackendProfile, collection: CollectionView)
    ensures
        spec_block_on(profile, collection).owner == collection.owner,
        spec_block_on(profile, collection).members.len() == collection.members.len()
            + async_methods(collection.members).len(),
        spec_block_on(profile, collection).members.take(collection.members.len() as int)
            == collection.members,
        forall|i: int|
            0 <= i < collection.members.len() ==> spec_block_on(profile, collection).members[i]
                == #[trigger] collection.members[i],
{
    lemma_wrappers_follow_async_methods(collection.owner, profile, collection.members);
    assert(spec_block_on(profile, collection).members.take(collection.members.len() as int)
        =~= collection.members);
}

/// What is added, position by position: the member that follows the
/// given members at distance `k` is the wrapper of the asynchronous method
/// number `k`. It is a method that is not asynchronous, it bears that
/// method's name followed by `_blocking`, and its body blocks with the
/// setup and the entry point of the one backend of this transformation.
pub proof fn lemma_added_members_are_wrappers(
    profile: BackendProfile,
    collection: CollectionView,
    k: int,
)
    requires
        0 <= k < async_methods(collection.members).len(),
    ensures
        ({
            let source = async_methods(collection.members)[k];
            let added = spec_block_on(profile, collection).members[collection.members.len() + k];
            &&& source.is_async_method()
            &&& added == wrapper_member(collection.owner, profile, source)
            &&& added matches MemberView::Method(w)
            &&& w.sig.name == source->Method_0.sig.name + "_blocking"@
            &&& !w.sig.is_async
            &&& w.body matches BodyView::Blocking(body)
            &&& body.setup == profile.spec_setup()
            &&& body.entry == profile.spec_entry()
        }),
{
    lemma_wrappers_follow_async_methods(collection.owner, profile, collection.members);
    collection.members.lemma_filter_pred(|m: MemberView| m.is_async_method(), k);
}

/// Each asynchronous method has exactly one wrapper: the method at
/// position `i` has its wrapper behind the given members, at the
/// distance that counts the asynchronous methods before `i`. The wrapper
/// bears the method's name followed by `_blocking` and is not asynchronous.
pub proof fn lemma_one_wrapper_per_async_method(
    profile: BackendProfile,
    collection: CollectionView,
    i: int,
)
    requires
        0 <= i < collection.members.len(),
        collection.members[i].is_async_method(),
    ensures
        ({
            let out = spec_block_on(profile, collection);
            let at: int = (collection.members.len() + async_methods(
                collection.members.take(i),
            ).len()) as int;
            &&& at < out.members.len()
            &&& out.members[at] == wrapper_member(collection.owner, profile, collection.members[i])
            &&& out.members[at] matches MemberView::Method(w)
            &&& w.sig.name == collection.members[i]->Method_0.sig.name + "_blocking"@
            &&& !w.sig.is_async
        }),
{
    lemma_wrappers_follow_async_methods(collection.owner, profile, collection.members);
    lemma_async_method_position(collection.members, i);
}

/// The wrappers stand in the order of their methods: of two asynchronous
/// methods, the wrapper of the earlier one comes first.
pub proof fn lemma_wrappers_keep_order(collection: CollectionView, i: int, j: int)
    requires
        0 <= i < j < collection.members.len(),
        collection.members[i].is_async_method(),
        collection.members[j].is_async_method(),
    ensures
        async_methods(collection.members.take(i)).len() < async_methods(
            collection.members.take(j),
        ).len(),
{
    lemma_async_position_increases(collection.members, i, j);
}

/// The receiver is preserved: the wrapper takes the parameters of the
/// method, a receiver among them. Where the method takes a receiver the
/// wrapper calls it on `self` with instance syntax, and where it takes
/// none the wrapper calls it on the owning type with qualified syntax.
pub proof fn lemma_receiver_preserved(owner: Seq<char>, sig: SignatureView, profile: BackendProfile)
    ensures
        ({
            let w = spec_wrapper(owner, sig, profile);
            &&& w.sig.params == sig.params
            &&& w.sig.has_receiver() == sig.has_receiver()
            &&& w.body matches BodyView::Blocking(body)
            &&& body.call.method == sig.name
            &&& sig.has_receiver() ==> body.call.instance && body.call.qualifier
                == QualifierView::Receiver
            &&& !sig.has_receiver() ==> !body.call.instance && body.call.qualifier
                == QualifierView::Type(owner)
        }),
{
}

/// The parameters that are no receiver, in order.
pub open spec fn bindings(params: Seq<ParameterView>) -> Seq<ParameterView> {
    params.filter(|p: ParameterView| !(p is Receiver))
}

/// The forwarded arguments are the patterns of the parameters that are no
/// receiver, in the order of the parameters: none is added, left out or
/// moved.
pub proof fn lemma_forwarded_args_are_bindings(params: Seq<ParameterView>)
    ensures
        spec_forwarded_args(params) == bindings(params).map_values(
            |p: ParameterView| p->Binding_0,
        ),
    decreases params.len(),
{
    let pattern = |p: ParameterView| p->Binding_0;
    if params.len() == 0 {
        reveal(Seq::filter);
        assert(spec_forwarded_args(params) =~= bindings(params).map_values(pattern));
    } else {
        let rest = params.drop_last();
        let last = params.last();
        lemma_forwarded_args_are_bindings(rest);
        assert(params =~= rest.push(last));
        rest.lemma_filter_push(last, |p: ParameterView| !(p is Receiver));
        match last {
            ParameterView::Receiver => {
                assert(binding_pattern(last) is None);
            },
            ParameterView::Binding(text) => {
                assert(binding_pattern(last) == Some(text));
                assert(spec_forwarded_args(params) =~= spec_forwarded_args(rest) + seq![text]);
                assert(bindings(params).map_values(pattern) =~= bindings(rest).map_values(
                    pattern,
                ).push(text));
            },
        }
    }
}

/// The call in a wrapper's body forwards exactly the bindings of the
/// method that it wraps.
pub proof fn lemma_arguments_forwarded(owner: Seq<char>, sig: SignatureView, profile: BackendProfile)
    ensures
        spec_wrapper(owner, sig, profile).body matches BodyView::Blocking(body) && body.call.args
            == bindings(sig.params).map_values(|p: ParameterView| p->Binding_0),
{
    lemma_forwarded_args_are_bindings(sig.params);
}

/// The shape of the body goes by the backend. For Tokio the setup ends in
/// the construction of a runtime, and the call is driven on that runtime.
/// For async-std no runtime is constructed, and the call is handed to the
/// global entry point. Either way the call is the planned one.
pub proof fn lemma_body_shape(plan: CallPlanView, profile: BackendProfile)
    ensures
        spec_synthesize(plan, profile) matches BodyView::Blocking(body) && body.call == spec_call(
            plan,
        ) && match profile {
            BackendProfile::Tokio => {
                &&& body.setup == seq![SetupStatement::UseRuntime, SetupStatement::NewRuntime]
                &&& body.entry == BlockingEntry::OnRuntime
            },
            BackendProfile::AsyncStd => {
                &&& body.setup == seq![SetupStatement::UseTask]
                &&& !body.setup.contains(SetupStatement::NewRuntime)
                &&& body.entry == BlockingEntry::GlobalTask
            },
        },
{
}

/// The text of the planned call: `self.name(args)` for a method with a
/// receiver, `Owner::name(args)` for one without, the arguments separated
/// by a comma and a space.
pub proof fn lemma_call_text(owner: Seq<char>, sig: SignatureView)
    ensures
        sig.has_receiver() ==> call_text(spec_call(spec_plan(owner, sig))) == "self."@ + sig.name
            + "("@ + join(spec_forwarded_args(sig.params), ", "@) + ")"@,
        !sig.has_receiver() ==> call_text(spec_call(spec_plan(owner, sig))) == owner + "::"@
            + sig.name + "("@ + join(spec_forwarded_args(sig.params), ", "@) + ")"@,
{
    reveal_strlit("self.");
    reveal_strlit("self");
    reveal_strlit(".");
    assert("self"@ + "."@ =~= "self."@);
}

/// The text of a Tokio body: the runtime type is imported, a runtime is
/// built, and the runtime blocks on the call.
pub proof fn lemma_tokio_body_text(plan: CallPlanView)
    ensures
        body_text(spec_synthesize(plan, BackendProfile::Tokio))
            == "{ use tokio::runtime::Runtime; let mut rt = Runtime::new().unwrap(); rt.block_on("@
            + call_text(spec_call(plan)) + ") }"@,
{
    let setup = BackendProfile::Tokio.spec_setup();
    reveal_with_fuel(statements_text, 3);
    reveal_strlit(
        "{ use tokio::runtime::Runtime; let mut rt = Runtime::new().unwrap(); rt.block_on(",
    );
    reveal_strlit("{ ");
    reveal_strlit("use tokio::runtime::Runtime;");
    reveal_strlit("let mut rt = Runtime::new().unwrap();");
    reveal_strlit(" ");
    reveal_strlit("rt.block_on");
    reveal_strlit("(");
    assert(setup.drop_last() =~= seq![SetupStatement::UseRuntime]);
    assert(setup.drop_last().drop_last() =~= Seq::<SetupStatement>::empty());
    assert(statements_text(setup) =~= "use tokio::runtime::Runtime;"@ + " "@
        + "let mut rt = Runtime::new().unwrap();"@ + " "@);
    let opening = "{ "@ + statements_text(setup) + "rt.block_on"@ + "("@;
    assert(opening
        =~= "{ use tokio::runtime::Runtime; let mut rt = Runtime::new().unwrap(); rt.block_on("@);
    assert(body_text(spec_synthesize(plan, BackendProfile::Tokio)) =~= opening + call_text(
        spec_call(plan),
    ) + ") }"@);
}

/// The text of an async-std body: the task module is imported, and its
/// entry point blocks on the call. No runtime is built.
pub proof fn lemma_async_std_body_text(plan: CallPlanView)
    ensures
        body_text(spec_synthesize(plan, BackendProfile::AsyncStd))
            == "{ use async_std::task; task::block_on("@ + call_text(spec_call(plan)) + ") }"@,
{
    let setup = BackendProfile::AsyncStd.spec_setup();
    reveal_with_fuel(statements_text, 2);
    reveal_strlit("{ use async_std::task; task::block_on(");
    reveal_strlit("{ ");
    reveal_strlit("use async_std::task;");
    reveal_strlit(" ");
    reveal_strlit("task::block_on");
    reveal_strlit("(");
    assert(setup.drop_last() =~= Seq::<SetupStatement>::empty());
    assert(statements_text(setup) =~= "use async_std::task;"@ + " "@);
    let opening = "{ "@ + statements_text(setup) + "task::block_on"@ + "("@;
    assert(opening =~= "{ use async_std::task; task::block_on("@);
    assert(body_text(spec_synthesize(plan, BackendProfile::AsyncStd)) =~= opening + call_text(
        spec_call(plan),
    ) + ") }"@);
}

} // verus!
