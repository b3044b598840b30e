//! The request context: who is calling, on behalf of which conversation, and
//! through which chain of hops the call has come.

use vstd::prelude::*;

verus! {

/// Why a context could not be made.
#[derive(Debug, Clone, Copy, PartialEq, Eq, Structural)]
pub enum Error {
    /// The reserved root identity was asked for through `Ctx::new`.
    CtxCannotNewRootCtx,
}

impl Error {
    /// The name of the failure.
    pub open spec fn text(self) -> Seq<char> {
        "CtxCannotNewRootCtx"@
    }

    /// The failure in words.
    pub fn message(&self) -> (r: String)
        ensures
            r@ == self.text(),
    {
        "CtxCannotNewRootCtx".to_owned()
    }
}

/// One hop of a call: the service that forwarded it, and the id under which
/// that service tracked its own request.
#[derive(Debug)]
pub struct ReqChainLink {
    /// The forwarding service.
    pub service: String,
    /// The 128 bits of the forwarding request's UUID.
    pub uuid: u128,
}

/// What a `ReqChainLink` holds.
pub struct LinkView {
    pub service: Seq<char>,
    pub uuid: u128,
}

impl View for ReqChainLink {
    type V = LinkView;

    open spec fn view(&self) -> LinkView {
        LinkView { service: self.service@, uuid: self.uuid }
    }
}

impl Clone for ReqChainLink {
    fn clone(&self) -> (r: Self)
        ensures
            r@ == self@,
    {
        ReqChainLink { service: self.service.clone(), uuid: self.uuid }
    }
}

/// The views of a chain's links, oldest first.
pub open spec fn chain_view(chain: Seq<ReqChainLink>) -> Seq<LinkView> {
    chain.map_values(|l: ReqChainLink| l@)
}

/// A copy of `chain`, link by link.
pub fn clone_chain(chain: &Vec<ReqChainLink>) -> (r: Vec<ReqChainLink>)
    ensures
        chain_view(r@) == chain_view(chain@),
{
    let mut out: Vec<ReqChainLink> = Vec::new();
    let mut i: usize = 0;
    while i < chain.len()
        invariant
            i <= chain.len(),
            out.len() == i,
            forall|j: int| 0 <= j < i ==> out[j]@ == chain[j]@,
        decreases chain.len() - i,
    {
        out.push(chain[i].clone());
        i += 1;
    }
    assert(chain_view(out@) =~= chain_view(chain@));
    out
}

/// The identity and lineage of one call. A value never changes: the
/// `add_*` operations hand back a new one.
#[derive(Debug)]
pub struct Ctx {
    user_id: i64,
    conv_id: Option<i64>,
    req_chain: Option<Vec<ReqChainLink>>,
}

/// What a `Ctx` holds.
pub struct CtxView {
    pub user_id: i64,
    pub conv_id: Option<i64>,
    pub req_chain: Option<Seq<LinkView>>,
}

impl CtxView {
    /// The number of hops recorded; an absent chain has none.
    pub open spec fn chain_len(self) -> nat {
        match self.req_chain {
            Some(c) => c.len(),
            None => 0,
        }
    }

    /// The hops recorded, oldest first; an absent chain has none.
    pub open spec fn links(self) -> Seq<LinkView> {
        match self.req_chain {
            Some(c) => c,
            None => Seq::empty(),
        }
    }

    /// This context with one more hop at the end of its chain.
    pub open spec fn with_link(self, link: LinkView) -> CtxView {
        CtxView {
            user_id: self.user_id,
            conv_id: self.conv_id,
            req_chain: Some(self.links().push(link)),
        }
    }
}

/// Appending a hop makes the chain one longer, puts the hop last, keeps
/// every earlier hop at its place, and leaves identity and conversation as
/// they are.
pub proof fn lemma_with_link_appends(c: CtxView, link: LinkView)
    ensures
        c.with_link(link).chain_len() == c.chain_len() + 1,
        c.with_link(link).links().last() == link,
        forall|i: int| 0 <= i < c.chain_len() ==> c.with_link(link).links()[i] == c.links()[i],
        c.with_link(link).user_id == c.user_id,
        c.with_link(link).conv_id == c.conv_id,
{
}

impl View for Ctx {
    type V = CtxView;

    closed spec fn view(&self) -> CtxView {
        CtxView {
            user_id: self.user_id,
            conv_id: self.conv_id,
            req_chain: match self.req_chain {
                Some(c) => Some(chain_view(c@)),
                None => None,
            },
        }
    }
}

impl Clone for Ctx {
    fn clone(&self) -> (r: Self)
        ensures
            r@ == self@,
    {
        Ctx {
            user_id: self.user_id,
            conv_id: self.conv_id,
            req_chain: match &self.req_chain {
                Some(c) => Some(clone_chain(c)),
                None => None,
            },
        }
    }
}

impl Ctx {
    /// The context of the system itself, with the reserved identity 0.
    pub fn root_ctx() -> (r: Self)
        ensures
            r@ == (CtxView { user_id: 0, conv_id: None, req_chain: None }),
    {
        Ctx { user_id: 0, conv_id: None, req_chain: None }
    }

    /// The context of user `user_id`, with no conversation and no chain.
    /// The reserved identity 0 is refused.
    pub fn new(user_id: i64) -> (r: Result<Self, Error>)
        ensures
            r matches Ok(c) ==> c@.user_id != 0,
            user_id == 0 ==> r == Err::<Self, Error>(Error::CtxCannotNewRootCtx),
            user_id != 0 ==> r is Ok && r->Ok_0@ == (CtxView {
                user_id,
                conv_id: None,
                req_chain: None,
            }),
    {
        if user_id == 0 {
            Err(Error::CtxCannotNewRootCtx)
        } else {
            Ok(Ctx { user_id, conv_id: None, req_chain: None })
        }
    }

    /// Puts a context together from its parts, as they were read from a
    /// trusted upstream caller.
    pub(crate) fn from_parts(
        user_id: i64,
        conv_id: Option<i64>,
        req_chain: Option<Vec<ReqChainLink>>,
    ) -> (r: Self)
        ensures
            r@ == (CtxView {
                user_id,
                conv_id,
                req_chain: match req_chain {
                    Some(c) => Some(chain_view(c@)),
                    None => None,
                },
            }),
    {
        Ctx { user_id, conv_id, req_chain }
    }

    /// A copy of this context that belongs to conversation `conv_id`.
    pub fn add_conv_id(&self, conv_id: i64) -> (r: Ctx)
        ensures
            r@ == (CtxView { conv_id: Some(conv_id), ..self@ }),
    {
        let mut ctx = self.clone();
        ctx.conv_id = Some(conv_id);
        ctx
    }

    /// A copy of this context with `req_link` as the newest hop of its chain.
    /// A context without a chain gets one.
    pub fn add_req_chain_link(&self, req_link: ReqChainLink) -> (r: Ctx)
        ensures
            r@ == self@.with_link(req_link@),
    {
        let mut chain = match &self.req_chain {
            Some(c) => clone_chain(c),
            None => Vec::new(),
        };
        let ghost before = chain@;
        chain.push(req_link);
        proof {
            assert(chain_view(before) == self@.links());
            assert(chain_view(chain@) =~= chain_view(before).push(req_link@));
        }
        Ctx { user_id: self.user_id, conv_id: self.conv_id, req_chain: Some(chain) }
    }

    /// The caller's identity.
    pub fn user_id(&self) -> (r: i64)
        ensures
            r == self@.user_id,
    {
        self.user_id
    }

    /// The conversation the call belongs to, if any.
    pub fn conv_id(&self) -> (r: Option<i64>)
        ensures
            r == self@.conv_id,
    {
        self.conv_id
    }

    /// The hops the call has passed, oldest first, if any were recorded.
    pub fn req_chain(&self) -> (r: Option<&Vec<ReqChainLink>>)
        ensures
            match r {
                Some(c) => self@.req_chain == Some(chain_view(c@)),
                None => self@.req_chain is None,
            },
    {
        self.req_chain.as_ref()
    }
}

} // verus!
