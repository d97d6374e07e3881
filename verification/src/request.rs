//! What follows the opcode in a client's request: the body of a connect
//! request, and the body of an upload or download request.

use vstd::prelude::*;
use vstd::slice::{slice_subrange, slice_to_vec};

verus! {

/// Bytes of address text that follow the kind byte in a connect request.
pub const HOST_FIELD: usize = 15;

/// Longest body of an upload or download request that is looked at.
pub const TRANSFER_FIELD: usize = 1024;

/// Whether a byte is padding: NUL or ASCII white space.
pub open spec fn is_padding(byte: u8) -> bool {
    byte == 0 || byte == 0x20 || (0x09 <= byte && byte <= 0x0D)
}

/// How many bytes of padding stand at the front of `text`.
pub open spec fn leading_padding(text: Seq<u8>) -> nat
    decreases text.len(),
{
    if text.len() > 0 && is_padding(text[0]) {
        1 + leading_padding(text.skip(1))
    } else {
        0
    }
}

/// How many bytes of padding stand at the end of `text`.
pub open spec fn trailing_padding(text: Seq<u8>) -> nat
    decreases text.len(),
{
    if text.len() > 0 && is_padding(text.last()) {
        1 + trailing_padding(text.drop_last())
    } else {
        0
    }
}

/// `text` without the padding at its two ends.
pub open spec fn trimmed(text: Seq<u8>) -> Seq<u8> {
    if leading_padding(text) >= text.len() {
        Seq::empty()
    } else {
        text.subrange(leading_padding(text) as int, text.len() - trailing_padding(text))
    }
}

/// The first `limit` bytes of `text`, or all of it if it is shorter.
pub open spec fn clipped(text: Seq<u8>, limit: int) -> Seq<u8> {
    if text.len() <= limit {
        text
    } else {
        text.subrange(0, limit)
    }
}

/// Where the first NUL of `text` stands, or the length of `text` if it has
/// none.
pub open spec fn first_nul(text: Seq<u8>) -> int
    decreases text.len(),
{
    if text.len() == 0 || text[0] == 0 {
        0
    } else {
        1 + first_nul(text.skip(1))
    }
}

fn padding(byte: u8) -> (out: bool)
    ensures
        out == is_padding(byte),
{
    byte == 0 || byte == 0x20 || (0x09 <= byte && byte <= 0x0D)
}

/// The padding at the front of `text[from..]` is counted byte by byte.
proof fn lemma_leading_step(text: Seq<u8>, from: int)
    requires
        0 <= from < text.len(),
        is_padding(text[from]),
    ensures
        leading_padding(text.skip(from)) == 1 + leading_padding(text.skip(from + 1)),
{
    assert(text.skip(from).skip(1) =~= text.skip(from + 1));
}

/// The padding at the end of `text[..to]` is counted byte by byte.
proof fn lemma_trailing_step(text: Seq<u8>, to: int)
    requires
        0 < to <= text.len(),
        is_padding(text[to - 1]),
    ensures
        trailing_padding(text.take(to)) == 1 + trailing_padding(text.take(to - 1)),
{
    assert(text.take(to).drop_last() =~= text.take(to - 1));
}

/// Strips NUL bytes and ASCII white space from both ends.
pub fn trim(text: &[u8]) -> (out: Vec<u8>)
    ensures
        out@ == trimmed(text@),
{
    let len = text.len();
    let mut start: usize = 0;
    proof {
        assert(text@.skip(0) =~= text@);
    }
    while start < len && padding(text[start])
        invariant
            len == text@.len(),
            start <= len,
            leading_padding(text@) == start + leading_padding(text@.skip(start as int)),
        decreases len - start,
    {
        proof {
            lemma_leading_step(text@, start as int);
        }
        start = start + 1;
    }
    if start == len {
        proof {
            assert(leading_padding(text@) >= text@.len());
        }
        return Vec::new();
    }
    let mut end: usize = len;
    proof {
        assert(text@.take(len as int) =~= text@);
    }
    while end > start && padding(text[end - 1])
        invariant
            len == text@.len(),
            start < len,
            start < end <= len,
            leading_padding(text@) == start,
            !is_padding(text@[start as int]),
            trailing_padding(text@) == (len - end) + trailing_padding(text@.take(end as int)),
        decreases end,
    {
        proof {
            lemma_trailing_step(text@, end as int);
        }
        end = end - 1;
    }
    proof {
        assert(text@.take(end as int).last() == text@[end - 1]);
        assert(trailing_padding(text@.take(end as int)) == 0);
    }
    slice_to_vec(slice_subrange(text, start, end))
}

/// A connect request: which kind of robot, and where it is.
#[derive(Clone, Debug, PartialEq, Eq)]
pub struct ConnectRequest {
    /// The kind byte as the client sent it.
    pub kind: u8,
    /// The address text, trimmed.
    pub host: Vec<u8>,
}

/// The kind byte of a connect request's body: its first byte, or 0 if the
/// body is empty.
pub open spec fn connect_kind(body: Seq<u8>) -> u8 {
    if body.len() == 0 {
        0
    } else {
        body[0]
    }
}

/// The address of a connect request's body: up to 15 bytes after the kind
/// byte, trimmed.
pub open spec fn connect_host(body: Seq<u8>) -> Seq<u8> {
    if body.len() == 0 {
        Seq::empty()
    } else {
        trimmed(clipped(body.skip(1), HOST_FIELD as int))
    }
}

/// Reads the body of a connect request.
pub fn parse_connect(body: &[u8]) -> (out: ConnectRequest)
    ensures
        out.kind == connect_kind(body@),
        out.host@ == connect_host(body@),
{
    let len = body.len();
    if len == 0 {
        proof {
            assert(trimmed(Seq::<u8>::empty()) =~= Seq::<u8>::empty());
        }
        return ConnectRequest { kind: 0, host: Vec::new() };
    }
    let end = if len - 1 <= HOST_FIELD {
        len
    } else {
        1 + HOST_FIELD
    };
    let field = slice_subrange(body, 1, end);
    proof {
        assert(field@ =~= clipped(body@.skip(1), HOST_FIELD as int));
    }
    ConnectRequest { kind: body[0], host: trim(field) }
}

/// The body that a client sends to ask for a connection.
pub open spec fn connect_body(kind: u8, host: Seq<u8>) -> Seq<u8> {
    seq![kind] + host
}

/// Builds the body of a connect request.
pub fn compose_connect(kind: u8, host: &[u8]) -> (out: Vec<u8>)
    ensures
        out@ == connect_body(kind, host@),
{
    let mut body: Vec<u8> = Vec::new();
    body.push(kind);
    body.extend_from_slice(host);
    assert(body@ =~= connect_body(kind, host@));
    body
}

/// The names in an upload or download request: the directory that the client
/// works in, and the file's path from there.
#[derive(Clone, Debug, PartialEq, Eq)]
pub struct TransferRequest {
    pub cwd: Vec<u8>,
    pub rel_path: Vec<u8>,
}

/// The part of a transfer request's body that holds the names.
pub open spec fn transfer_text(body: Seq<u8>) -> Seq<u8> {
    trimmed(clipped(body, TRANSFER_FIELD as int))
}

/// Whether a transfer request's body holds two names: a NUL parts them.
pub open spec fn transfer_well_formed(body: Seq<u8>) -> bool {
    first_nul(transfer_text(body)) < transfer_text(body).len()
}

/// The working directory in a transfer request's body: what stands before
/// the first NUL.
pub open spec fn transfer_cwd(body: Seq<u8>) -> Seq<u8> {
    transfer_text(body).subrange(0, first_nul(transfer_text(body)))
}

/// The file's path in a transfer request's body: what stands between the
/// first NUL and the next one, or the end.
pub open spec fn transfer_rel_path(body: Seq<u8>) -> Seq<u8> {
    let text = transfer_text(body);
    let rest = text.skip(first_nul(text) + 1);
    rest.subrange(0, first_nul(rest))
}

/// Where the first NUL of `text` stands.
fn find_nul(text: &[u8]) -> (out: usize)
    ensures
        out == first_nul(text@),
        out <= text@.len(),
{
    let len = text.len();
    let mut at: usize = 0;
    proof {
        assert(text@.skip(0) =~= text@);
    }
    while at < len && text[at] != 0
        invariant
            len == text@.len(),
            at <= len,
            first_nul(text@) == at + first_nul(text@.skip(at as int)),
        decreases len - at,
    {
        proof {
            assert(text@.skip(at as int).skip(1) =~= text@.skip(at + 1));
        }
        at = at + 1;
    }
    at
}

/// Reads the body of an upload or download request: the working directory,
/// a NUL, the file's path. A body without the NUL is malformed.
pub fn parse_transfer(body: &[u8]) -> (out: Option<TransferRequest>)
    ensures
        transfer_well_formed(body@) ==> out is Some && out->Some_0.cwd@ == transfer_cwd(body@)
            && out->Some_0.rel_path@ == transfer_rel_path(body@),
        !transfer_well_formed(body@) ==> out is None,
{
    let len = body.len();
    let end = if len <= TRANSFER_FIELD {
        len
    } else {
        TRANSFER_FIELD
    };
    let field = slice_subrange(body, 0, end);
    proof {
        assert(field@ =~= clipped(body@, TRANSFER_FIELD as int));
    }
    let text = trim(field);
    let cut = find_nul(text.as_slice());
    if cut >= text.len() {
        return None;
    }
    let rest = slice_subrange(text.as_slice(), cut + 1, text.len());
    proof {
        assert(rest@ =~= text@.skip(cut + 1));
    }
    let stop = find_nul(rest);
    let cwd = slice_to_vec(slice_subrange(text.as_slice(), 0, cut));
    let rel_path = slice_to_vec(slice_subrange(rest, 0, stop));
    Some(TransferRequest { cwd, rel_path })
}

/// The local file that a transfer request names: the working directory, a
/// slash, the file's path.
pub open spec fn local_path_of(cwd: Seq<u8>, rel_path: Seq<u8>) -> Seq<u8> {
    cwd + seq![0x2Fu8] + rel_path
}

/// Builds the path of the local file that a transfer request names.
pub fn local_path(request: &TransferRequest) -> (out: Vec<u8>)
    ensures
        out@ == local_path_of(request.cwd@, request.rel_path@),
{
    let mut path: Vec<u8> = Vec::new();
    path.extend_from_slice(request.cwd.as_slice());
    path.push(0x2F);
    path.extend_from_slice(request.rel_path.as_slice());
    assert(path@ =~= local_path_of(request.cwd@, request.rel_path@));
    path
}

/// The body that a client sends to ask for an upload or a download.
pub open spec fn transfer_body(cwd: Seq<u8>, rel_path: Seq<u8>) -> Seq<u8> {
    cwd + seq![0u8] + rel_path
}

/// Builds the body of an upload or download request.
pub fn compose_transfer(cwd: &[u8], rel_path: &[u8]) -> (out: Vec<u8>)
    ensures
        out@ == transfer_body(cwd@, rel_path@),
{
    let mut body: Vec<u8> = Vec::new();
    body.extend_from_slice(cwd);
    body.push(0);
    body.extend_from_slice(rel_path);
    assert(body@ =~= transfer_body(cwd@, rel_path@));
    body
}

/// Text without padding at its ends is its own trimming.
pub proof fn lemma_trimmed_is_fixed(text: Seq<u8>)
    requires
        text.len() > 0 ==> !is_padding(text[0]) && !is_padding(text.last()),
    ensures
        trimmed(text) == text,
{
    if text.len() > 0 {
        assert(text.subrange(0, text.len() as int) =~= text);
    } else {
        assert(text =~= Seq::<u8>::empty());
    }
}

/// A connect body that a client builds is read by the router as the client
/// meant it, if the address has at most 15 bytes and no padding at its ends.
pub proof fn lemma_connect_roundtrip(kind: u8, host: Seq<u8>)
    requires
        host.len() <= HOST_FIELD,
        host.len() > 0 ==> !is_padding(host[0]) && !is_padding(host.last()),
    ensures
        connect_kind(connect_body(kind, host)) == kind,
        connect_host(connect_body(kind, host)) == host,
{
    let body = connect_body(kind, host);
    assert(body.skip(1) =~= host);
    lemma_trimmed_is_fixed(host);
}

/// The first NUL of text that begins with NUL-free text and a NUL stands
/// right behind that text.
proof fn lemma_first_nul_after(head: Seq<u8>, rest: Seq<u8>)
    requires
        forall|i: int| 0 <= i < head.len() ==> head[i] != 0,
    ensures
        first_nul(head + seq![0u8] + rest) == head.len(),
        first_nul(head) == head.len(),
    decreases head.len(),
{
    let text = head + seq![0u8] + rest;
    if head.len() > 0 {
        assert(text[0] == head[0]);
        assert(text.skip(1) =~= head.skip(1) + seq![0u8] + rest);
        assert forall|i: int| 0 <= i < head.skip(1).len() implies head.skip(1)[i] != 0 by {
            assert(head.skip(1)[i] == head[i + 1]);
        }
        lemma_first_nul_after(head.skip(1), rest);
    } else {
        assert(text[0] == 0);
    }
}

/// A transfer body that a client builds is read by the router as the client
/// meant it, if the body has at most 1024 bytes, neither name is empty or
/// holds a NUL, and no padding stands before the directory or behind the
/// file's path.
pub proof fn lemma_transfer_roundtrip(cwd: Seq<u8>, rel_path: Seq<u8>)
    requires
        cwd.len() > 0,
        rel_path.len() > 0,
        cwd.len() + 1 + rel_path.len() <= TRANSFER_FIELD,
        !is_padding(cwd[0]),
        !is_padding(rel_path.last()),
        forall|i: int| 0 <= i < cwd.len() ==> cwd[i] != 0,
        forall|i: int| 0 <= i < rel_path.len() ==> rel_path[i] != 0,
    ensures
        transfer_well_formed(transfer_body(cwd, rel_path)),
        transfer_cwd(transfer_body(cwd, rel_path)) == cwd,
        transfer_rel_path(transfer_body(cwd, rel_path)) == rel_path,
{
    let body = transfer_body(cwd, rel_path);
    assert(body[0] == cwd[0]);
    assert(body.last() == rel_path.last());
    lemma_trimmed_is_fixed(body);
    lemma_first_nul_after(cwd, rel_path);
    assert(body.subrange(0, cwd.len() as int) =~= cwd);
    let rest = body.skip(cwd.len() as int + 1);
    assert(rest =~= rel_path);
    lemma_first_nul_after(rel_path, Seq::<u8>::empty());
    assert(rest.subrange(0, rel_path.len() as int) =~= rel_path);
}

} // verus!
