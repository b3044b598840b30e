//! The propagation header: a context as JSON text, handed from one process
//! to the next.
//!
//! A context is written as the object `{user_id, conv_id, req_chain}`, with
//! `null` for what is absent, and a hop as `{service, uuid}` with the UUID in
//! its hyphenated form. Reading takes a missing member as absent too.

use crate::ctx::{chain_view, Ctx, CtxView, LinkView, ReqChainLink};
use crate::error::Error;
use crate::json::{
    json_array, json_as_array, json_as_i64, json_as_str, json_get, json_int, json_is_null,
    json_null, json_object, json_text, json_view, lemma_member_found, member_keys, member_views,
    parse_json, parsed_json, print_json, printed_json, views, JsonModel,
};
use crate::resolver::{CtxExtError, CtxW};
use vstd::prelude::*;

verus! {

/// The sixteen hexadecimal digits, in lower case.
pub open spec fn hex_char(d: int) -> char {
    "0123456789abcdef"@[d]
}

/// The last `count` hexadecimal digits of `value`, most significant first.
pub open spec fn hex_digits(value: nat, count: nat) -> Seq<char>
    decreases count,
{
    if count == 0 {
        Seq::empty()
    } else {
        hex_digits(value / 16, (count - 1) as nat).push(hex_char((value % 16) as int))
    }
}

/// The hyphenated form of a UUID: its 32 digits in groups of 8, 4, 4, 4
/// and 12.
pub open spec fn uuid_text(bits: u128) -> Seq<char> {
    let d = hex_digits(bits as nat, 32);
    d.subrange(0, 8) + seq!['-'] + d.subrange(8, 12) + seq!['-'] + d.subrange(12, 16) + seq!['-']
        + d.subrange(16, 20) + seq!['-'] + d.subrange(20, 32)
}

/// The UUID that `Uuid::parse_str` reads from `text`, as 128 bits, or
/// nothing where it reports an error.
pub uninterp spec fn uuid_parsed(text: Seq<char>) -> Option<u128>;

/// `Uuid::from_u128` and the hyphenated form of the result, as a `String`.
/// Trusted: the text is the lower-case hyphenated form, and `Uuid::parse_str`
/// reads it back as the same UUID.
#[verifier::external_body]
pub(crate) fn uuid_to_text(bits: u128) -> (r: String)
    ensures
        r@ == uuid_text(bits),
        uuid_parsed(r@) == Some(bits),
{
    uuid::Uuid::from_u128(bits).hyphenated().to_string()
}

/// `Uuid::parse_str`, with the UUID handed out as 128 bits. Trusted: the
/// result is a function of the text alone; an error becomes `None`.
#[verifier::external_body]
pub(crate) fn uuid_from_text(text: &str) -> (r: Option<u128>)
    ensures
        r == uuid_parsed(text@),
{
    uuid::Uuid::parse_str(text).ok().map(|u| u.as_u128())
}

/// A hop as a JSON object.
pub open spec fn link_json(l: LinkView) -> JsonModel {
    JsonModel::Object(
        seq![
            ("service"@, JsonModel::Text(l.service)),
            ("uuid"@, JsonModel::Text(uuid_text(l.uuid))),
        ],
    )
}

/// An optional integer as JSON: the number, or `null`.
pub open spec fn opt_int_json(v: Option<i64>) -> JsonModel {
    match v {
        Some(i) => JsonModel::Int(i as int),
        None => JsonModel::Null,
    }
}

/// An optional chain as JSON: the array of its hops, or `null`.
pub open spec fn chain_json(c: Option<Seq<LinkView>>) -> JsonModel {
    match c {
        Some(links) => JsonModel::Array(links.map_values(|l: LinkView| link_json(l))),
        None => JsonModel::Null,
    }
}

/// A context as a JSON object.
pub open spec fn ctx_json(c: CtxView) -> JsonModel {
    JsonModel::Object(
        seq![
            ("user_id"@, JsonModel::Int(c.user_id as int)),
            ("conv_id"@, opt_int_json(c.conv_id)),
            ("req_chain"@, chain_json(c.req_chain)),
        ],
    )
}

/// The hop that a JSON value stands for: an object with the strings
/// `service` and `uuid`, the latter in a form that reads as a UUID.
pub open spec fn link_of_json(m: JsonModel) -> Option<LinkView> {
    match (m.get("service"@), m.get("uuid"@)) {
        (Some(JsonModel::Text(service)), Some(JsonModel::Text(t))) => match uuid_parsed(t) {
            Some(uuid) => Some(LinkView { service, uuid }),
            None => None,
        },
        _ => None,
    }
}

/// The hops that JSON values stand for, if each of them stands for one.
pub open spec fn links_of_json(items: Seq<JsonModel>) -> Option<Seq<LinkView>>
    decreases items.len(),
{
    if items.len() == 0 {
        Some(Seq::empty())
    } else {
        match (links_of_json(items.drop_last()), link_of_json(items.last())) {
            (Some(init), Some(l)) => Some(init.push(l)),
            _ => None,
        }
    }
}

/// The optional integer that a member stands for: absent and `null` are
/// none, an integer in 64 bits is itself, anything else is refused.
pub open spec fn opt_int_of_json(m: Option<JsonModel>) -> Option<Option<i64>> {
    match m {
        None => Some(None),
        Some(JsonModel::Null) => Some(None),
        Some(v) => match v.as_i64() {
            Some(i) => Some(Some(i)),
            None => None,
        },
    }
}

/// The optional chain that a member stands for: absent and `null` are none,
/// an array of hops is itself, anything else is refused.
pub open spec fn chain_of_json(m: Option<JsonModel>) -> Option<Option<Seq<LinkView>>> {
    match m {
        None => Some(None),
        Some(JsonModel::Null) => Some(None),
        Some(JsonModel::Array(items)) => match links_of_json(items) {
            Some(links) => Some(Some(links)),
            None => None,
        },
        Some(_) => None,
    }
}

/// The context that a JSON value stands for: an object with an integer
/// `user_id`, and with `conv_id` and `req_chain` as far as they are there.
pub open spec fn ctx_of_json(m: JsonModel) -> Option<CtxView> {
    match m.get("user_id"@) {
        Some(u) => match (
            u.as_i64(),
            opt_int_of_json(m.get("conv_id"@)),
            chain_of_json(m.get("req_chain"@)),
        ) {
            (Some(user_id), Some(conv_id), Some(req_chain)) => Some(
                CtxView { user_id, conv_id, req_chain },
            ),
            _ => None,
        },
        None => None,
    }
}

/// A hop whose UUID text reads back as that UUID is read back whole.
pub proof fn lemma_link_round_trip(l: LinkView)
    requires
        uuid_parsed(uuid_text(l.uuid)) == Some(l.uuid),
    ensures
        link_of_json(link_json(l)) == Some(l),
{
    reveal_strlit("service");
    reveal_strlit("uuid");
    let members = link_json(l)->Object_0;
    assert("service"@ != "uuid"@) by {
        assert("service"@.len() != "uuid"@.len());
    }
    lemma_member_found(members, 0, "service"@);
    lemma_member_found(members, 1, "uuid"@);
}

/// Hops that are each read back whole are read back as the same chain.
pub proof fn lemma_links_round_trip(links: Seq<LinkView>)
    requires
        forall|i: int|
            0 <= i < links.len() ==> uuid_parsed(uuid_text(#[trigger] links[i].uuid)) == Some(
                links[i].uuid,
            ),
    ensures
        links_of_json(links.map_values(|l: LinkView| link_json(l))) == Some(links),
    decreases links.len(),
{
    let items = links.map_values(|l: LinkView| link_json(l));
    if links.len() > 0 {
        let init = links.drop_last();
        assert(items.drop_last() =~= init.map_values(|l: LinkView| link_json(l)));
        lemma_links_round_trip(init);
        lemma_link_round_trip(links.last());
        assert(init.push(links.last()) =~= links);
    } else {
        assert(Seq::<LinkView>::empty() =~= links);
    }
}

/// Writing a context as JSON and reading the JSON gives the same context:
/// the same identity, conversation and chain, hop by hop. It holds wherever
/// the text of each hop's UUID reads back as that UUID, as it does for every
/// text that this library writes.
pub proof fn lemma_ctx_round_trip(c: CtxView)
    requires
        forall|i: int|
            0 <= i < c.links().len() ==> uuid_parsed(uuid_text(#[trigger] c.links()[i].uuid))
                == Some(c.links()[i].uuid),
    ensures
        ctx_of_json(ctx_json(c)) == Some(c),
{
    reveal_strlit("user_id");
    reveal_strlit("conv_id");
    reveal_strlit("req_chain");
    let members = ctx_json(c)->Object_0;
    assert("user_id"@ != "conv_id"@) by {
        assert("user_id"@[0] != "conv_id"@[0]);
    }
    assert("user_id"@ != "req_chain"@) by {
        assert("user_id"@.len() != "req_chain"@.len());
    }
    assert("conv_id"@ != "req_chain"@) by {
        assert("conv_id"@.len() != "req_chain"@.len());
    }
    lemma_member_found(members, 0, "user_id"@);
    lemma_member_found(members, 1, "conv_id"@);
    lemma_member_found(members, 2, "req_chain"@);
    match c.req_chain {
        Some(links) => {
            assert(links == c.links());
            lemma_links_round_trip(links);
        },
        None => {},
    }
}

/// Where a beginning of `items` does not stand for hops, `items` does not.
pub proof fn lemma_links_none_extends(items: Seq<JsonModel>, k: int)
    requires
        0 <= k <= items.len(),
        links_of_json(items.subrange(0, k)) is None,
    ensures
        links_of_json(items) is None,
    decreases items.len() - k,
{
    if k < items.len() {
        assert(items.subrange(0, k + 1).drop_last() =~= items.subrange(0, k));
        lemma_links_none_extends(items, k + 1);
    } else {
        assert(items.subrange(0, k) =~= items);
    }
}

/// Whether the text of each hop's UUID reads back as that UUID.
pub open spec fn uuids_read_back(links: Seq<LinkView>) -> bool {
    forall|i: int|
        0 <= i < links.len() ==> uuid_parsed(uuid_text(#[trigger] links[i].uuid)) == Some(
            links[i].uuid,
        )
}

/// Writes a hop as a JSON object. What is written reads back as the hop.
pub fn link_to_json(link: &ReqChainLink) -> (r: serde_json::Value)
    ensures
        json_view(r) == link_json(link@),
        link_of_json(json_view(r)) == Some(link@),
        uuid_parsed(uuid_text(link.uuid)) == Some(link.uuid),
{
    let text = uuid_to_text(link.uuid);
    let mut fields: Vec<(String, serde_json::Value)> = Vec::new();
    fields.push(("service".to_owned(), json_text(link.service.clone())));
    fields.push(("uuid".to_owned(), json_text(text)));
    proof {
        reveal_strlit("service");
        reveal_strlit("uuid");
        assert("service"@.len() != "uuid"@.len());
        assert(member_keys(fields@) =~= seq!["service"@, "uuid"@]);
        assert(member_views(fields@) =~= link_json(link@)->Object_0);
        lemma_link_round_trip(link@);
    }
    json_object(fields)
}

/// Writes a chain as the JSON array of its hops, oldest first.
pub fn chain_to_json(chain: &Vec<ReqChainLink>) -> (r: serde_json::Value)
    ensures
        json_view(r) == chain_json(Some(chain_view(chain@))),
        uuids_read_back(chain_view(chain@)),
{
    let mut items: Vec<serde_json::Value> = Vec::new();
    let mut i: usize = 0;
    while i < chain.len()
        invariant
            i <= chain.len(),
            items.len() == i,
            forall|j: int| 0 <= j < i ==> json_view(#[trigger] items[j]) == link_json(chain[j]@),
            forall|j: int|
                0 <= j < i ==> uuid_parsed(uuid_text(#[trigger] chain[j].uuid)) == Some(
                    chain[j].uuid,
                ),
        decreases chain.len() - i,
    {
        items.push(link_to_json(&chain[i]));
        i += 1;
    }
    proof {
        let links = chain_view(chain@);
        assert(views(items@) =~= links.map_values(|l: LinkView| link_json(l)));
        assert forall|j: int| 0 <= j < links.len() implies uuid_parsed(
            uuid_text(#[trigger] links[j].uuid),
        ) == Some(links[j].uuid) by {
            assert(links[j].uuid == chain[j].uuid);
        }
    }
    json_array(items)
}

/// Writes a context as a JSON object. What is written reads back as the
/// same context.
pub fn ctx_to_json(ctx: &Ctx) -> (r: serde_json::Value)
    ensures
        json_view(r) == ctx_json(ctx@),
        ctx_of_json(json_view(r)) == Some(ctx@),
        uuids_read_back(ctx@.links()),
{
    let conv = match ctx.conv_id() {
        Some(c) => json_int(c),
        None => json_null(),
    };
    let chain = match ctx.req_chain() {
        Some(c) => chain_to_json(c),
        None => json_null(),
    };
    let mut fields: Vec<(String, serde_json::Value)> = Vec::new();
    fields.push(("user_id".to_owned(), json_int(ctx.user_id())));
    fields.push(("conv_id".to_owned(), conv));
    fields.push(("req_chain".to_owned(), chain));
    proof {
        reveal_strlit("user_id");
        reveal_strlit("conv_id");
        reveal_strlit("req_chain");
        assert("user_id"@[0] != "conv_id"@[0]);
        assert("user_id"@.len() != "req_chain"@.len());
        assert(member_keys(fields@) =~= seq!["user_id"@, "conv_id"@, "req_chain"@]);
        assert(member_views(fields@) =~= ctx_json(ctx@)->Object_0);
        lemma_ctx_round_trip(ctx@);
    }
    json_object(fields)
}

/// Reads a hop from a JSON value.
pub fn link_from_json(v: &serde_json::Value) -> (r: Option<ReqChainLink>)
    ensures
        match r {
            Some(l) => link_of_json(json_view(*v)) == Some(l@),
            None => link_of_json(json_view(*v)) is None,
        },
{
    let service = match json_get(v, "service") {
        Some(s) => match json_as_str(s) {
            Some(t) => t,
            None => {
                return None;
            },
        },
        None => {
            return None;
        },
    };
    let text = match json_get(v, "uuid") {
        Some(u) => match json_as_str(u) {
            Some(t) => t,
            None => {
                return None;
            },
        },
        None => {
            return None;
        },
    };
    match uuid_from_text(text) {
        Some(uuid) => Some(ReqChainLink { service: service.to_owned(), uuid }),
        None => None,
    }
}

/// Reads a chain from JSON values; every one of them has to be a hop.
pub fn chain_from_json(items: &Vec<serde_json::Value>) -> (r: Option<Vec<ReqChainLink>>)
    ensures
        match r {
            Some(c) => links_of_json(views(items@)) == Some(chain_view(c@)),
            None => links_of_json(views(items@)) is None,
        },
{
    let mut chain: Vec<ReqChainLink> = Vec::new();
    let mut i: usize = 0;
    while i < items.len()
        invariant
            i <= items.len(),
            links_of_json(views(items@).subrange(0, i as int)) == Some(chain_view(chain@)),
        decreases items.len() - i,
    {
        let ghost before = views(items@).subrange(0, i as int);
        let ghost next = views(items@).subrange(0, i + 1);
        proof {
            assert(next.drop_last() =~= before);
            assert(next.last() == json_view(items[i as int]));
        }
        match link_from_json(&items[i]) {
            Some(l) => {
                proof {
                    assert(chain_view(chain@.push(l)) =~= chain_view(chain@).push(l@));
                }
                chain.push(l);
            },
            None => {
                proof {
                    lemma_links_none_extends(views(items@), i + 1);
                }
                return None;
            },
        }
        i += 1;
    }
    proof {
        assert(views(items@).subrange(0, i as int) =~= views(items@));
    }
    Some(chain)
}

/// Reads a context from a JSON value.
pub fn ctx_from_json(v: &serde_json::Value) -> (r: Option<Ctx>)
    ensures
        match r {
            Some(c) => ctx_of_json(json_view(*v)) == Some(c@),
            None => ctx_of_json(json_view(*v)) is None,
        },
{
    let user_id = match json_get(v, "user_id") {
        Some(u) => match json_as_i64(u) {
            Some(i) => i,
            None => {
                return None;
            },
        },
        None => {
            return None;
        },
    };
    let conv_id = match json_get(v, "conv_id") {
        Some(c) => if json_is_null(c) {
            None
        } else {
            match json_as_i64(c) {
                Some(i) => Some(i),
                None => {
                    return None;
                },
            }
        },
        None => None,
    };
    let req_chain = match json_get(v, "req_chain") {
        Some(c) => if json_is_null(c) {
            None
        } else {
            match json_as_array(c) {
                Some(items) => match chain_from_json(items) {
                    Some(chain) => Some(chain),
                    None => {
                        return None;
                    },
                },
                None => {
                    return None;
                },
            }
        },
        None => None,
    };
    Some(Ctx::from_parts(user_id, conv_id, req_chain))
}

/// The name of the propagation header.
pub const AUTH1_HEADER_KEY: &'static str = "X-WORKER-POSTAUTH";

/// The header under which `ctx` travels to the next process, name and
/// value. The value is the compact JSON text of the context; it is
/// credential material and belongs in no log. The UUID of every hop is
/// written in a form that reads back as that UUID.
pub fn get_ctx_headers(ctx: &Ctx) -> (r: Result<(String, String), Error>)
    ensures
        match r {
            Ok(h) => {
                &&& h.0@ == AUTH1_HEADER_KEY@
                &&& printed_json(ctx_json(ctx@)) == Some(h.1@)
                &&& uuids_read_back(ctx@.links())
            },
            Err(e) => e == Error::SerdeJson && printed_json(ctx_json(ctx@)) is None,
        },
{
    let value = ctx_to_json(ctx);
    match print_json(&value) {
        Some(text) => Ok((AUTH1_HEADER_KEY.to_owned(), text)),
        None => Err(Error::SerdeJson),
    }
}

/// The context that a header text stands for: the text has to be JSON, and
/// the JSON a context.
pub open spec fn ctx_of_text(text: Seq<char>) -> Option<CtxView> {
    match parsed_json(text) {
        Some(m) => ctx_of_json(m),
        None => None,
    }
}

/// Reads a context from the text of a propagation header. A text that
/// parses to the JSON of a context, as `ctx_json` writes it, is read as that
/// context, field by field: the same identity, conversation and chain. This
/// holds of every context whose UUIDs read back, as those of a header that
/// `get_ctx_headers` wrote do.
pub fn ctx_from_header_text(text: &str) -> (r: Option<Ctx>)
    ensures
        match r {
            Some(c) => ctx_of_text(text@) == Some(c@),
            None => ctx_of_text(text@) is None,
        },
        forall|c: CtxView|
            uuids_read_back(c.links()) && parsed_json(text@) == Some(#[trigger] ctx_json(c))
                ==> (r matches Some(d) && d@ == c),
{
    proof {
        assert forall|c: CtxView|
            uuids_read_back(c.links()) && parsed_json(text@) == Some(
                #[trigger] ctx_json(c),
            ) implies ctx_of_text(text@) == Some(c) by {
            lemma_ctx_round_trip(c);
        }
    }
    match parse_json(text) {
        Some(v) => ctx_from_json(&v),
        None => None,
    }
}

/// Whether a byte of a header value is a visible ASCII character, a blank
/// or a tab.
pub open spec fn visible_ascii(b: u8) -> bool {
    (32 <= b && b < 127) || b == 9
}

/// The text of a header value: its bytes as characters, if each of them is
/// `visible_ascii`.
pub open spec fn header_text(bytes: Seq<u8>) -> Option<Seq<char>> {
    if forall|i: int| 0 <= i < bytes.len() ==> visible_ascii(#[trigger] bytes[i]) {
        Some(bytes.map_values(|b: u8| b as char))
    } else {
        None
    }
}

/// `String::from_utf8_lossy` on ASCII bytes. Trusted: bytes below 128 are
/// valid UTF-8 of one character each, so nothing is replaced.
#[verifier::external_body]
fn ascii_to_string(bytes: &[u8]) -> (r: String)
    requires
        forall|i: int| 0 <= i < bytes@.len() ==> bytes@[i] < 128,
    ensures
        r@ == bytes@.map_values(|b: u8| b as char),
{
    String::from_utf8_lossy(bytes).into_owned()
}

/// Reads the text of a header value.
pub fn header_to_text(bytes: &[u8]) -> (r: Option<String>)
    ensures
        match r {
            Some(s) => header_text(bytes@) == Some(s@),
            None => header_text(bytes@) is None,
        },
{
    let mut i: usize = 0;
    while i < bytes.len()
        invariant
            i <= bytes.len(),
            forall|j: int| 0 <= j < i ==> visible_ascii(#[trigger] bytes@[j]),
        decreases bytes.len() - i,
    {
        let b = bytes[i];
        if !((32 <= b && b < 127) || b == 9) {
            assert(!visible_ascii(bytes@[i as int]));
            return None;
        }
        i += 1;
    }
    Some(ascii_to_string(bytes))
}

/// What the propagation header gives, by the bytes of its value or by its
/// absence: the context, or one of the two failures of a header. A header
/// is malformed where its value is no visible ASCII text and where the text
/// is no context.
pub open spec fn header_ctx(header: Option<Seq<u8>>) -> Result<CtxView, CtxExtError> {
    match header {
        None => Err(CtxExtError::CtxPostAuthTokenNotInReqHeader),
        Some(bytes) => match header_text(bytes) {
            None => Err(CtxExtError::CtxPostAuthTokenBadFormat),
            Some(text) => match ctx_of_text(text) {
                Some(c) => Ok(c),
                None => Err(CtxExtError::CtxPostAuthTokenBadFormat),
            },
        },
    }
}

/// The bytes of a header value, if the header is there.
pub open spec fn header_bytes(header: Option<&[u8]>) -> Option<Seq<u8>> {
    match header {
        Some(b) => Some(b@),
        None => None,
    }
}

/// Whether the header is there, its value is visible ASCII text, and the
/// text parses to the JSON of the context `c`.
pub open spec fn header_holds(header: Option<Seq<u8>>, c: CtxView) -> bool {
    match header {
        Some(bytes) => match header_text(bytes) {
            Some(text) => parsed_json(text) == Some(ctx_json(c)),
            None => false,
        },
        None => false,
    }
}

/// A header that holds a context gives that context, field by field.
pub proof fn lemma_header_round_trip(header: Option<Seq<u8>>, c: CtxView)
    requires
        uuids_read_back(c.links()),
        header_holds(header, c),
    ensures
        header_ctx(header) == Ok::<CtxView, CtxExtError>(c),
{
    lemma_ctx_round_trip(c);
}

/// Reads the caller's context from the propagation header, trusting the
/// upstream process that wrote it. A missing header is told apart from a
/// malformed one; both are failures of the context, never of the JSON
/// layer. A header that holds a context gives that context back.
pub fn ctx_from_req_header(header: Option<&[u8]>) -> (r: Result<CtxW, Error>)
    ensures
        match r {
            Ok(w) => header_ctx(header_bytes(header)) == Ok::<CtxView, CtxExtError>(w.0@),
            Err(e) => header_ctx(header_bytes(header)) matches Err(x) && e == Error::CtxExt(x),
        },
        forall|c: CtxView|
            uuids_read_back(c.links()) && #[trigger] header_holds(header_bytes(header), c)
                ==> (r matches Ok(w) && w.0@ == c),
{
    proof {
        assert forall|c: CtxView|
            uuids_read_back(c.links()) && #[trigger] header_holds(
                header_bytes(header),
                c,
            ) implies header_ctx(header_bytes(header)) == Ok::<CtxView, CtxExtError>(c) by {
            lemma_header_round_trip(header_bytes(header), c);
        }
    }
    let bytes = match header {
        Some(b) => b,
        None => {
            return Err(Error::CtxExt(CtxExtError::CtxPostAuthTokenNotInReqHeader));
        },
    };
    let text = match header_to_text(bytes) {
        Some(t) => t,
        None => {
            return Err(Error::CtxExt(CtxExtError::CtxPostAuthTokenBadFormat));
        },
    };
    match ctx_from_header_text(text.as_str()) {
        Some(ctx) => Ok(CtxW(ctx)),
        None => Err(Error::CtxExt(CtxExtError::CtxPostAuthTokenBadFormat)),
    }
}

} // verus!
