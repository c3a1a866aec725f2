//! The transformation itself: every member stays, and every asynchronous
//! method gets a blocking wrapper.

use vstd::prelude::*;

use crate::backend::{resolve, spec_resolve, BackendProfile, ConfigError};
use crate::model::{
    members_view, CollectionView, Member, MemberView, Method, MethodCollection, MethodView,
    SignatureView,
};
use crate::plan::{plan_call, spec_plan, spec_wrapper_signature, wrapper_signature};
use crate::synth::{spec_synthesize, synthesize};

verus! {

/// For each member in order, whether it is an asynchronous method.
pub open spec fn spec_classify(members: Seq<MemberView>) -> Seq<bool> {
    members.map_values(|m: MemberView| m.is_async_method())
}

/// The blocking wrapper of the method with signature `sig` in the type
/// `owner`, for the backend `profile`.
pub open spec fn spec_wrapper(
    owner: Seq<char>,
    sig: SignatureView,
    profile: BackendProfile,
) -> MethodView {
    MethodView {
        sig: spec_wrapper_signature(sig),
        body: spec_synthesize(spec_plan(owner, sig), profile),
    }
}

/// The member that is added for `member`: the wrapper of an asynchronous
/// method, and nothing for any other member.
pub open spec fn spec_wrapper_for(
    owner: Seq<char>,
    profile: BackendProfile,
    member: MemberView,
) -> Option<MemberView> {
    match member {
        MemberView::Method(m) => if m.sig.is_async {
            Some(MemberView::Method(spec_wrapper(owner, m.sig, profile)))
        } else {
            None
        },
        MemberView::Other(_) => None,
    }
}

/// The wrappers of the asynchronous methods among `members`, in the order
/// of these methods.
pub open spec fn spec_wrappers(
    owner: Seq<char>,
    profile: BackendProfile,
    members: Seq<MemberView>,
) -> Seq<MemberView> {
    members.filter_map(|m: MemberView| spec_wrapper_for(owner, profile, m))
}

/// The collection after the transformation: the members as they were,
/// followed by the wrappers of the asynchronous methods among them.
pub open spec fn spec_block_on(profile: BackendProfile, collection: CollectionView) -> CollectionView {
    CollectionView {
        owner: collection.owner,
        members: collection.members + spec_wrappers(
            collection.owner,
            profile,
            collection.members,
        ),
    }
}

/// Tells for each member, by its position, whether it is an asynchronous
/// method. Nothing is changed.
pub fn classify(collection: &MethodCollection) -> (r: Vec<bool>)
    ensures
        r@ == spec_classify(collection@.members),
{
    let mut out: Vec<bool> = Vec::new();
    let mut i: usize = 0;
    while i < collection.members.len()
        invariant
            i <= collection.members.len(),
            out@.len() == i,
            forall|j: int| 0 <= j < i ==> out@[j] == collection.members@[j]@.is_async_method(),
        decreases collection.members.len() - i,
    {
        out.push(collection.members[i].is_async_method());
        i += 1;
    }
    out
}

/// Builds the blocking wrapper of `method`, a method of the type `owner`.
pub fn wrap_method(owner: &str, method: &Method, profile: BackendProfile) -> (r: Method)
    ensures
        r@ == spec_wrapper(owner@, method@.sig, profile),
{
    let plan = plan_call(owner, &method.sig);
    Method { sig: wrapper_signature(&method.sig), body: synthesize(&plan, profile) }
}

/// Builds the wrappers of the asynchronous methods of a collection.
pub fn wrappers(collection: &MethodCollection, profile: BackendProfile) -> (r: Vec<Member>)
    ensures
        members_view(r@) == spec_wrappers(collection@.owner, profile, collection@.members),
{
    let ghost all = collection@.members;
    let ghost owner = collection@.owner;
    let mut out: Vec<Member> = Vec::new();
    let mut i: usize = 0;
    while i < collection.members.len()
        invariant
            i <= collection.members.len(),
            all == collection@.members,
            owner == collection@.owner,
            members_view(out@) == spec_wrappers(owner, profile, all.take(i as int)),
        decreases collection.members.len() - i,
    {
        let ghost before = members_view(out@);
        proof {
            all.lemma_filter_map_take_succ(
                |m: MemberView| spec_wrapper_for(owner, profile, m),
                i as int,
            );
        }
        match &collection.members[i] {
            Member::Method(method) => {
                if method.sig.is_async {
                    let wrapper = Member::Method(
                        wrap_method(collection.owner.as_str(), method, profile),
                    );
                    out.push(wrapper);
                    proof {
                        assert(members_view(out@) =~= before.push(wrapper@));
                    }
                }
            },
            Member::Other(_) => {},
        }
        i += 1;
    }
    proof {
        assert(all.take(collection.members@.len() as int) =~= all);
    }
    out
}

/// Transforms a collection for a backend that is already known: the
/// members stay as they are and in their order, and the wrappers follow
/// them.
pub fn block_on_with(profile: BackendProfile, collection: MethodCollection) -> (r:
    MethodCollection)
    ensures
        r@ == spec_block_on(profile, collection@),
{
    let mut added = wrappers(&collection, profile);
    let ghost wrappers_view = members_view(added@);
    let MethodCollection { owner, members } = collection;
    let mut members = members;
    let ghost before = members_view(members@);
    members.append(&mut added);
    proof {
        assert(members_view(members@) =~= before + wrappers_view);
    }
    MethodCollection { owner, members }
}

/// Transforms a collection for the backend that `selector` names.
///
/// With `tokio` or `async-std` the result holds every member of the
/// collection, unchanged and in order, followed by one blocking wrapper
/// for each asynchronous method, in the order of these methods. With any
/// other selector nothing is produced, whatever the collection holds, and
/// the error carries the selector.
///
/// A member that already bears a wrapper's name is not looked for: the
/// wrapper is added beside it.
pub fn block_on(selector: &str, collection: MethodCollection) -> (r: Result<
    MethodCollection,
    ConfigError,
>)
    ensures
        match spec_resolve(selector@) {
            Some(profile) => r matches Ok(out) && out@ == spec_block_on(profile, collection@),
            None => r matches Err(e) && e.selector@ == selector@,
        },
{
    match resolve(selector) {
        Ok(profile) => Ok(block_on_with(profile, collection)),
        Err(e) => Err(e),
    }
}

} // verus!
