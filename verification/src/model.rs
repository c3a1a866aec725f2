//! The members of one type, as far as the transformation reads them.
//!
//! Every executable type has a view made of sequences of characters, and
//! the contracts of the crate speak of these views only.

use vstd::prelude::*;

use crate::backend::{BlockingEntry, SetupStatement};

verus! {

/// One entry of a parameter list.
#[derive(Debug, PartialEq, Eq)]
pub enum Parameter {
    /// The receiver of an instance method.
    Receiver,
    /// A named binding, held as the pattern that the declaration writes.
    Binding(String),
}

/// What a [`Parameter`] stands for.
pub enum ParameterView {
    Receiver,
    Binding(Seq<char>),
}

impl View for Parameter {
    type V = ParameterView;

    open spec fn view(&self) -> ParameterView {
        match self {
            Parameter::Receiver => ParameterView::Receiver,
            Parameter::Binding(pattern) => ParameterView::Binding(pattern@),
        }
    }
}

impl Clone for Parameter {
    fn clone(&self) -> (r: Self)
        ensures
            r@ == self@,
    {
        match self {
            Parameter::Receiver => Parameter::Receiver,
            Parameter::Binding(pattern) => Parameter::Binding(pattern.clone()),
        }
    }
}

/// The views of a parameter list, entry by entry.
pub open spec fn params_view(params: Seq<Parameter>) -> Seq<ParameterView> {
    params.map_values(|p: Parameter| p@)
}

/// The views of a list of strings, entry by entry.
pub open spec fn strings_view(strings: Seq<String>) -> Seq<Seq<char>> {
    strings.map_values(|s: String| s@)
}

/// A copy of a parameter list.
pub fn clone_params(params: &Vec<Parameter>) -> (r: Vec<Parameter>)
    ensures
        params_view(r@) == params_view(params@),
{
    let mut out: Vec<Parameter> = Vec::new();
    let mut i: usize = 0;
    while i < params.len()
        invariant
            i <= params.len(),
            out@.len() == i,
            forall|j: int| 0 <= j < i ==> out@[j]@ == params@[j]@,
        decreases params.len() - i,
    {
        out.push(params[i].clone());
        i += 1;
    }
    proof {
        assert(params_view(out@) =~= params_view(params@));
    }
    out
}

/// A copy of a list of strings.
pub fn clone_strings(strings: &Vec<String>) -> (r: Vec<String>)
    ensures
        strings_view(r@) == strings_view(strings@),
{
    let mut out: Vec<String> = Vec::new();
    let mut i: usize = 0;
    while i < strings.len()
        invariant
            i <= strings.len(),
            out@.len() == i,
            forall|j: int| 0 <= j < i ==> out@[j]@ == strings@[j]@,
        decreases strings.len() - i,
    {
        out.push(strings[i].clone());
        i += 1;
    }
    proof {
        assert(strings_view(out@) =~= strings_view(strings@));
    }
    out
}

/// The declaration of a method without its body.
#[derive(Debug, PartialEq, Eq)]
pub struct MethodSignature {
    /// The method's identifier.
    pub name: String,
    /// Whether the method is declared `async`.
    pub is_async: bool,
    /// The parameters in declaration order.
    pub params: Vec<Parameter>,
}

/// What a [`MethodSignature`] stands for.
pub struct SignatureView {
    pub name: Seq<char>,
    pub is_async: bool,
    pub params: Seq<ParameterView>,
}

impl SignatureView {
    /// A method takes a receiver when its first parameter is one.
    pub open spec fn has_receiver(self) -> bool {
        self.params.len() > 0 && self.params[0] is Receiver
    }
}

impl View for MethodSignature {
    type V = SignatureView;

    open spec fn view(&self) -> SignatureView {
        SignatureView {
            name: self.name@,
            is_async: self.is_async,
            params: params_view(self.params@),
        }
    }
}

impl Clone for MethodSignature {
    fn clone(&self) -> (r: Self)
        ensures
            r@ == self@,
    {
        MethodSignature {
            name: self.name.clone(),
            is_async: self.is_async,
            params: clone_params(&self.params),
        }
    }
}

impl MethodSignature {
    /// Whether the method is an instance method.
    pub fn has_receiver(&self) -> (r: bool)
        ensures
            r == self@.has_receiver(),
    {
        if self.params.len() == 0 {
            false
        } else {
            match &self.params[0] {
                Parameter::Receiver => true,
                Parameter::Binding(_) => false,
            }
        }
    }
}

/// What a generated call is made on.
#[derive(Debug, PartialEq, Eq)]
pub enum Qualifier {
    /// The instance that the wrapper was called on.
    Receiver,
    /// The owning type, by name.
    Type(String),
}

/// What a [`Qualifier`] stands for.
pub enum QualifierView {
    Receiver,
    Type(Seq<char>),
}

impl View for Qualifier {
    type V = QualifierView;

    open spec fn view(&self) -> QualifierView {
        match self {
            Qualifier::Receiver => QualifierView::Receiver,
            Qualifier::Type(name) => QualifierView::Type(name@),
        }
    }
}

impl Clone for Qualifier {
    fn clone(&self) -> (r: Self)
        ensures
            r@ == self@,
    {
        match self {
            Qualifier::Receiver => Qualifier::Receiver,
            Qualifier::Type(name) => Qualifier::Type(name.clone()),
        }
    }
}

/// A call of the asynchronous method, as the wrapper's body writes it.
#[derive(Debug, PartialEq, Eq)]
pub struct CallExpr {
    /// What the method is called on.
    pub qualifier: Qualifier,
    /// Instance-call syntax (`q.m(..)`) if set, qualified syntax (`q::m(..)`) if not.
    pub instance: bool,
    /// The asynchronous method's name.
    pub method: String,
    /// The argument expressions in order.
    pub args: Vec<String>,
}

/// What a [`CallExpr`] stands for.
pub struct CallView {
    pub qualifier: QualifierView,
    pub instance: bool,
    pub method: Seq<char>,
    pub args: Seq<Seq<char>>,
}

impl View for CallExpr {
    type V = CallView;

    open spec fn view(&self) -> CallView {
        CallView {
            qualifier: self.qualifier@,
            instance: self.instance,
            method: self.method@,
            args: strings_view(self.args@),
        }
    }
}

impl Clone for CallExpr {
    fn clone(&self) -> (r: Self)
        ensures
            r@ == self@,
    {
        CallExpr {
            qualifier: self.qualifier.clone(),
            instance: self.instance,
            method: self.method.clone(),
            args: clone_strings(&self.args),
        }
    }
}

/// The body of a blocking wrapper: the setup, then the blocking call as
/// the body's value.
#[derive(Debug, PartialEq, Eq)]
pub struct BlockingBody {
    /// The statements before the blocking call.
    pub setup: Vec<SetupStatement>,
    /// The entry point that the call is handed to.
    pub entry: BlockingEntry,
    /// The call that is driven to completion.
    pub call: CallExpr,
}

/// What a [`BlockingBody`] stands for.
pub struct BlockingBodyView {
    pub setup: Seq<SetupStatement>,
    pub entry: BlockingEntry,
    pub call: CallView,
}

impl View for BlockingBody {
    type V = BlockingBodyView;

    open spec fn view(&self) -> BlockingBodyView {
        BlockingBodyView { setup: self.setup@, entry: self.entry, call: self.call@ }
    }
}

impl Clone for BlockingBody {
    fn clone(&self) -> (r: Self)
        ensures
            r@ == self@,
    {
        let mut setup: Vec<SetupStatement> = Vec::new();
        let mut i: usize = 0;
        while i < self.setup.len()
            invariant
                i <= self.setup.len(),
                setup@ == self.setup@.take(i as int),
            decreases self.setup.len() - i,
        {
            setup.push(self.setup[i]);
            i += 1;
        }
        proof {
            assert(self.setup@.take(self.setup@.len() as int) =~= self.setup@);
        }
        BlockingBody { setup, entry: self.entry, call: self.call.clone() }
    }
}

/// The body of a method.
#[derive(Debug, PartialEq, Eq)]
pub enum MethodBody {
    /// A body that the caller wrote, carried as its text and never read.
    Verbatim(String),
    /// A body that blocks on an asynchronous call.
    Blocking(BlockingBody),
}

/// What a [`MethodBody`] stands for.
pub enum BodyView {
    Verbatim(Seq<char>),
    Blocking(BlockingBodyView),
}

impl View for MethodBody {
    type V = BodyView;

    open spec fn view(&self) -> BodyView {
        match self {
            MethodBody::Verbatim(text) => BodyView::Verbatim(text@),
            MethodBody::Blocking(body) => BodyView::Blocking(body@),
        }
    }
}

impl Clone for MethodBody {
    fn clone(&self) -> (r: Self)
        ensures
            r@ == self@,
    {
        match self {
            MethodBody::Verbatim(text) => MethodBody::Verbatim(text.clone()),
            MethodBody::Blocking(body) => MethodBody::Blocking(body.clone()),
        }
    }
}

/// A method: its signature and its body.
#[derive(Debug, PartialEq, Eq)]
pub struct Method {
    pub sig: MethodSignature,
    pub body: MethodBody,
}

/// What a [`Method`] stands for.
pub struct MethodView {
    pub sig: SignatureView,
    pub body: BodyView,
}

impl View for Method {
    type V = MethodView;

    open spec fn view(&self) -> MethodView {
        MethodView { sig: self.sig@, body: self.body@ }
    }
}

impl Clone for Method {
    fn clone(&self) -> (r: Self)
        ensures
            r@ == self@,
    {
        Method { sig: self.sig.clone(), body: self.body.clone() }
    }
}

/// A member of a type's method collection.
#[derive(Debug, PartialEq, Eq)]
pub enum Member {
    /// A method.
    Method(Method),
    /// Anything else that may stand among the methods, carried as its text
    /// and never read.
    Other(String),
}

/// What a [`Member`] stands for.
pub enum MemberView {
    Method(MethodView),
    Other(Seq<char>),
}

impl MemberView {
    /// A member is an asynchronous method when it is a method and its
    /// signature is marked `async`.
    pub open spec fn is_async_method(self) -> bool {
        self matches MemberView::Method(m) && m.sig.is_async
    }
}

impl View for Member {
    type V = MemberView;

    open spec fn view(&self) -> MemberView {
        match self {
            Member::Method(m) => MemberView::Method(m@),
            Member::Other(text) => MemberView::Other(text@),
        }
    }
}

impl Clone for Member {
    fn clone(&self) -> (r: Self)
        ensures
            r@ == self@,
    {
        match self {
            Member::Method(m) => Member::Method(m.clone()),
            Member::Other(text) => Member::Other(text.clone()),
        }
    }
}

impl Member {
    /// Whether the member is an asynchronous method.
    pub fn is_async_method(&self) -> (r: bool)
        ensures
            r == self@.is_async_method(),
    {
        match self {
            Member::Method(m) => m.sig.is_async,
            Member::Other(_) => false,
        }
    }
}

/// The views of a member list, entry by entry.
pub open spec fn members_view(members: Seq<Member>) -> Seq<MemberView> {
    members.map_values(|m: Member| m@)
}

/// A copy of a member list.
pub fn clone_members(members: &Vec<Member>) -> (r: Vec<Member>)
    ensures
        members_view(r@) == members_view(members@),
{
    let mut out: Vec<Member> = Vec::new();
    let mut i: usize = 0;
    while i < members.len()
        invariant
            i <= members.len(),
            out@.len() == i,
            forall|j: int| 0 <= j < i ==> out@[j]@ == members@[j]@,
        decreases members.len() - i,
    {
        out.push(members[i].clone());
        i += 1;
    }
    proof {
        assert(members_view(out@) =~= members_view(members@));
    }
    out
}

/// The ordered members of one type.
#[derive(Debug, PartialEq, Eq)]
pub struct MethodCollection {
    /// The owning type, as it is written in a qualified call.
    pub owner: String,
    /// The members in declaration order.
    pub members: Vec<Member>,
}

/// What a [`MethodCollection`] stands for.
pub struct CollectionView {
    pub owner: Seq<char>,
    pub members: Seq<MemberView>,
}

impl View for MethodCollection {
    type V = CollectionView;

    open spec fn view(&self) -> CollectionView {
        CollectionView { owner: self.owner@, members: members_view(self.members@) }
    }
}

impl Clone for MethodCollection {
    fn clone(&self) -> (r: Self)
        ensures
            r@ == self@,
    {
        MethodCollection {
            owner: self.owner.clone(),
            members: clone_members(&self.members),
        }
    }
}

} // verus!
