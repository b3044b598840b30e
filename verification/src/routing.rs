//! The method grammar: a bare name is served in this process, and
//! `service/method` is forwarded to the service named before the first `/`.

use vstd::prelude::*;
use vstd::std_specs::iter::IteratorSpec;

verus! {

/// The character that parts the service from the method.
pub const SEPARATOR: char = '/';

/// Where a call is served.
#[derive(Debug)]
pub enum RpcTarget {
    /// In this process, under the whole method name.
    Local,
    /// In the sibling `service`, under `method`.
    Remote { service: String, method: String },
}

/// What an `RpcTarget` holds.
pub enum TargetView {
    Local,
    Remote { service: Seq<char>, method: Seq<char> },
}

impl View for RpcTarget {
    type V = TargetView;

    open spec fn view(&self) -> TargetView {
        match self {
            RpcTarget::Local => TargetView::Local,
            RpcTarget::Remote { service, method } => TargetView::Remote {
                service: service@,
                method: method@,
            },
        }
    }
}

/// The place of the first separator in `s`, if there is one.
pub open spec fn first_separator(s: Seq<char>) -> Option<int>
    decreases s.len(),
{
    if s.len() == 0 {
        None
    } else if s[0] == SEPARATOR {
        Some(0)
    } else {
        match first_separator(s.drop_first()) {
            Some(i) => Some(i + 1),
            None => None,
        }
    }
}

/// Where a method name sends a call: without a separator it stays here;
/// with one, what stands before the first separator names the service and
/// what follows it is the method there.
pub open spec fn target_of(method: Seq<char>) -> TargetView {
    match first_separator(method) {
        None => TargetView::Local,
        Some(i) => TargetView::Remote {
            service: method.subrange(0, i),
            method: method.subrange(i + 1, method.len() as int),
        },
    }
}

/// The first separator stands at `i` exactly if a separator stands there
/// and none before.
pub proof fn lemma_first_separator_at(s: Seq<char>, i: int)
    requires
        0 <= i < s.len(),
        s[i] == SEPARATOR,
        forall|j: int| 0 <= j < i ==> s[j] != SEPARATOR,
    ensures
        first_separator(s) == Some(i),
    decreases i,
{
    if i > 0 {
        let rest = s.drop_first();
        assert(rest[i - 1] == s[i]);
        assert forall|j: int| 0 <= j < i - 1 implies rest[j] != SEPARATOR by {
            assert(rest[j] == s[j + 1]);
        }
        lemma_first_separator_at(rest, i - 1);
    }
}

/// A name without a separator has no first separator.
pub proof fn lemma_first_separator_none(s: Seq<char>)
    requires
        forall|j: int| 0 <= j < s.len() ==> s[j] != SEPARATOR,
    ensures
        first_separator(s) is None,
    decreases s.len(),
{
    if s.len() > 0 {
        let rest = s.drop_first();
        assert forall|j: int| 0 <= j < rest.len() implies rest[j] != SEPARATOR by {
            assert(rest[j] == s[j + 1]);
        }
        lemma_first_separator_none(rest);
    }
}

/// A method name without a separator is always served in this process.
pub proof fn lemma_bare_name_is_local(method: Seq<char>)
    requires
        !method.contains(SEPARATOR),
    ensures
        target_of(method) == TargetView::Local,
{
    assert forall|j: int| 0 <= j < method.len() implies method[j] != SEPARATOR by {
        if method[j] == SEPARATOR {
            assert(method.contains(SEPARATOR));
        }
    }
    lemma_first_separator_none(method);
}

/// The name `service/op` is always forwarded to `service`, and what is
/// asked of it is `op`, never the compound name. Later separators stay in
/// `op`.
pub proof fn lemma_compound_name_is_remote(service: Seq<char>, op: Seq<char>)
    requires
        !service.contains(SEPARATOR),
    ensures
        target_of(service + seq![SEPARATOR] + op) == (TargetView::Remote { service, method: op }),
{
    let name = service + seq![SEPARATOR] + op;
    let i = service.len() as int;
    assert(name[i] == SEPARATOR);
    assert forall|j: int| 0 <= j < i implies name[j] != SEPARATOR by {
        assert(name[j] == service[j]);
        if service[j] == SEPARATOR {
            assert(service.contains(SEPARATOR));
        }
    }
    lemma_first_separator_at(name, i);
    assert(name.subrange(0, i) =~= service);
    assert(name.subrange(i + 1, name.len() as int) =~= op);
}

/// Decides from the method name where a call is served.
pub fn route(method: &str) -> (r: RpcTarget)
    ensures
        r@ == target_of(method@),
{
    let len = method.unicode_len();
    let mut it = method.chars();
    let mut idx: usize = 0;
    loop
        invariant
            idx <= len,
            len == method@.len(),
            it.obeys_prophetic_iter_laws(),
            it.remaining() == method@.subrange(idx as int, len as int),
            forall|j: int| 0 <= j < idx ==> method@[j] != SEPARATOR,
        decreases len - idx,
    {
        match it.next() {
            Some(c) => {
                assert(c == method@[idx as int]);
                if c == SEPARATOR {
                    proof {
                        lemma_first_separator_at(method@, idx as int);
                    }
                    let service = method.substring_char(0, idx);
                    let rest = method.substring_char(idx + 1, len);
                    return RpcTarget::Remote {
                        service: service.to_owned(),
                        method: rest.to_owned(),
                    };
                }
                proof {
                    assert(method@.subrange(idx as int, len as int).drop_first()
                        =~= method@.subrange(idx + 1, len as int));
                }
                idx += 1;
            },
            None => {
                proof {
                    lemma_first_separator_none(method@);
                }
                return RpcTarget::Local;
            },
        }
    }
}

} // verus!
