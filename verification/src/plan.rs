//! From the signature of an asynchronous method to the plan of its
//! blocking wrapper: the wrapper's name, what it calls, and what it
//! forwards.

use vstd::prelude::*;
use vstd::string::*;

use crate::model::{
    clone_params, clone_strings, params_view, strings_view, MethodSignature, Parameter,
    ParameterView, Qualifier, QualifierView, SignatureView,
};

verus! {

/// What the wrapper of one asynchronous method calls, and under which name
/// the wrapper itself goes.
#[derive(Debug, PartialEq, Eq)]
pub struct CallPlan {
    /// The wrapper's name.
    pub new_name: String,
    /// Whether the asynchronous method takes a receiver.
    pub has_receiver: bool,
    /// The binding patterns that the call forwards, in declaration order.
    pub forwarded_args: Vec<String>,
    /// The asynchronous method's name.
    pub original_name: String,
    /// What the asynchronous method is called on.
    pub qualifier: Qualifier,
}

/// What a [`CallPlan`] stands for.
pub struct CallPlanView {
    pub new_name: Seq<char>,
    pub has_receiver: bool,
    pub forwarded_args: Seq<Seq<char>>,
    pub original_name: Seq<char>,
    pub qualifier: QualifierView,
}

impl View for CallPlan {
    type V = CallPlanView;

    open spec fn view(&self) -> CallPlanView {
        CallPlanView {
            new_name: self.new_name@,
            has_receiver: self.has_receiver,
            forwarded_args: strings_view(self.forwarded_args@),
            original_name: self.original_name@,
            qualifier: self.qualifier@,
        }
    }
}

impl Clone for CallPlan {
    fn clone(&self) -> (r: Self)
        ensures
            r@ == self@,
    {
        CallPlan {
            new_name: self.new_name.clone(),
            has_receiver: self.has_receiver,
            forwarded_args: clone_strings(&self.forwarded_args),
            original_name: self.original_name.clone(),
            qualifier: self.qualifier.clone(),
        }
    }
}

/// The name of the wrapper of a method: the method's name, then `_blocking`.
pub open spec fn spec_blocking_name(name: Seq<char>) -> Seq<char> {
    name + "_blocking"@
}

/// The pattern of a binding; a receiver has none.
pub open spec fn binding_pattern(param: ParameterView) -> Option<Seq<char>> {
    match param {
        ParameterView::Receiver => None,
        ParameterView::Binding(pattern) => Some(pattern),
    }
}

/// The patterns of the bindings of a parameter list, in the order of the
/// list; receivers are left out.
pub open spec fn spec_forwarded_args(params: Seq<ParameterView>) -> Seq<Seq<char>> {
    params.filter_map(|p: ParameterView| binding_pattern(p))
}

/// An instance method is called on the receiver, an associated function
/// on the owning type.
pub open spec fn spec_qualifier(owner: Seq<char>, sig: SignatureView) -> QualifierView {
    if sig.has_receiver() {
        QualifierView::Receiver
    } else {
        QualifierView::Type(owner)
    }
}

/// The plan for the wrapper of `sig`, a method of the type `owner`.
pub open spec fn spec_plan(owner: Seq<char>, sig: SignatureView) -> CallPlanView {
    CallPlanView {
        new_name: spec_blocking_name(sig.name),
        has_receiver: sig.has_receiver(),
        forwarded_args: spec_forwarded_args(sig.params),
        original_name: sig.name,
        qualifier: spec_qualifier(owner, sig),
    }
}

/// The wrapper's signature: that of the method, under the wrapper's name
/// and no longer `async`. The parameters, a receiver among them, stay.
pub open spec fn spec_wrapper_signature(sig: SignatureView) -> SignatureView {
    SignatureView { name: spec_blocking_name(sig.name), is_async: false, params: sig.params }
}

/// The name of the wrapper of the method `name`.
pub fn blocking_name(name: &str) -> (r: String)
    ensures
        r@ == spec_blocking_name(name@),
{
    String::from_str(name).concat("_blocking")
}

/// The patterns that a call forwards for the parameter list `params`.
pub fn forwarded_args(params: &Vec<Parameter>) -> (r: Vec<String>)
    ensures
        strings_view(r@) == spec_forwarded_args(params_view(params@)),
{
    let ghost all = params_view(params@);
    let mut out: Vec<String> = Vec::new();
    let mut i: usize = 0;
    while i < params.len()
        invariant
            i <= params.len(),
            all == params_view(params@),
            strings_view(out@) == spec_forwarded_args(all.take(i as int)),
        decreases params.len() - i,
    {
        let ghost before = strings_view(out@);
        proof {
            all.lemma_filter_map_take_succ(|p: ParameterView| binding_pattern(p), i as int);
        }
        match &params[i] {
            Parameter::Receiver => {},
            Parameter::Binding(pattern) => {
                out.push(pattern.clone());
                proof {
                    assert(strings_view(out@) =~= before.push(pattern@));
                }
            },
        }
        i += 1;
    }
    proof {
        assert(all.take(params@.len() as int) =~= all);
    }
    out
}

/// Plans the wrapper of `sig`, a method of the type `owner`.
pub fn plan_call(owner: &str, sig: &MethodSignature) -> (r: CallPlan)
    ensures
        r@ == spec_plan(owner@, sig@),
{
    let has_receiver = sig.has_receiver();
    let qualifier = if has_receiver {
        Qualifier::Receiver
    } else {
        Qualifier::Type(String::from_str(owner))
    };
    CallPlan {
        new_name: blocking_name(sig.name.as_str()),
        has_receiver,
        forwarded_args: forwarded_args(&sig.params),
        original_name: sig.name.clone(),
        qualifier,
    }
}

/// The signature of the wrapper of `sig`.
pub fn wrapper_signature(sig: &MethodSignature) -> (r: MethodSignature)
    ensures
        r@ == spec_wrapper_signature(sig@),
{
    MethodSignature {
        name: blocking_name(sig.name.as_str()),
        is_async: false,
        params: clone_params(&sig.params),
    }
}

} // verus!
