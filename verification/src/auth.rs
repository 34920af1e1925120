use vstd::prelude::*;

verus! {

/// Whitespace that is stripped from the ends of a header value.
pub open spec fn is_header_ws(c: char) -> bool {
    c == ' ' || c == '\t' || c == '\r' || c == '\n'
}

/// `s` with leading whitespace removed.
pub open spec fn spec_trim_start(s: Seq<char>) -> Seq<char>
    decreases s.len(),
{
    if s.len() > 0 && is_header_ws(s[0]) {
        spec_trim_start(s.drop_first())
    } else {
        s
    }
}

/// `s` with trailing whitespace removed.
pub open spec fn spec_trim_end(s: Seq<char>) -> Seq<char>
    decreases s.len(),
{
    if s.len() > 0 && is_header_ws(s.last()) {
        spec_trim_end(s.drop_last())
    } else {
        s
    }
}

/// The maximal suffix of `s` that contains no space: the last
/// space-delimited token.
pub open spec fn spec_last_token(s: Seq<char>) -> Seq<char>
    decreases s.len(),
{
    if s.len() == 0 {
        s
    } else if s.last() == ' ' {
        Seq::empty()
    } else {
        spec_last_token(s.drop_last()).push(s.last())
    }
}

/// The bearer token carried by an authorization header value: the header
/// is trimmed of surrounding whitespace, and the last space-delimited
/// token is taken (for `"Bearer <token>"`, the `<token>` part).
pub open spec fn spec_bearer_token(header: Seq<char>) -> Seq<char> {
    spec_last_token(spec_trim_end(spec_trim_start(header)))
}

proof fn lemma_trim_start_idx(s: Seq<char>, k: int)
    requires
        0 <= k <= s.len(),
        forall|j: int| 0 <= j < k ==> is_header_ws(#[trigger] s[j]),
        k < s.len() ==> !is_header_ws(s[k]),
    ensures
        spec_trim_start(s) =~= s.subrange(k, s.len() as int),
    decreases k,
{
    if k == 0 {
        assert(spec_trim_start(s) =~= s.subrange(0, s.len() as int));
    } else {
        lemma_trim_start_idx(s.drop_first(), k - 1);
        assert(s.drop_first().subrange(k - 1, s.drop_first().len() as int) =~= s.subrange(
            k,
            s.len() as int,
        ));
    }
}

proof fn lemma_trim_end_idx(s: Seq<char>, e: int)
    requires
        0 <= e <= s.len(),
        forall|j: int| e <= j < s.len() ==> is_header_ws(#[trigger] s[j]),
        e > 0 ==> !is_header_ws(s[e - 1]),
    ensures
        spec_trim_end(s) =~= s.subrange(0, e),
    decreases s.len(),
{
    if e == s.len() {
        assert(spec_trim_end(s) =~= s.subrange(0, e));
    } else {
        assert(is_header_ws(s.last()));
        lemma_trim_end_idx(s.drop_last(), e);
        assert(s.drop_last().subrange(0, e) =~= s.subrange(0, e));
    }
}

proof fn lemma_last_token_idx(s: Seq<char>, p: int)
    requires
        0 <= p <= s.len(),
        p > 0 ==> s[p - 1] == ' ',
        forall|j: int| p <= j < s.len() ==> #[trigger] s[j] != ' ',
    ensures
        spec_last_token(s) =~= s.subrange(p, s.len() as int),
    decreases s.len(),
{
    if s.len() == 0 {
    } else if p == s.len() {
        assert(s.last() == ' ');
    } else {
        assert(s.last() != ' ');
        lemma_last_token_idx(s.drop_last(), p);
        assert(s.drop_last().subrange(p, s.drop_last().len() as int) =~= s.subrange(
            p,
            s.len() - 1,
        ));
        assert(s.subrange(p, s.len() - 1).push(s.last()) =~= s.subrange(p, s.len() as int));
    }
}

/// Whether `c` is header whitespace.
fn is_ws_char(c: char) -> (r: bool)
    ensures
        r == is_header_ws(c),
{
    c == ' ' || c == '\t' || c == '\r' || c == '\n'
}

/// Extracts the bearer token from an authorization header value, read as
/// the last whitespace-delimited token of the trimmed value.
pub fn bearer_token(header: &str) -> (r: String)
    ensures
        r@ == spec_bearer_token(header@),
{
    let len = header.unicode_len();
    let mut start: usize = 0;
    while start < len && is_ws_char(header.get_char(start))
        invariant
            start <= len,
            len == header@.len(),
            forall|j: int| 0 <= j < start ==> is_header_ws(#[trigger] header@[j]),
        decreases len - start,
    {
        start += 1;
    }
    let mut endd: usize = len;
    while endd > start && is_ws_char(header.get_char(endd - 1))
        invariant
            start <= endd <= len,
            len == header@.len(),
            forall|j: int| endd <= j < len ==> is_header_ws(#[trigger] header@[j]),
        decreases endd,
    {
        endd -= 1;
    }
    let mut p: usize = endd;
    while p > start && header.get_char(p - 1) != ' '
        invariant
            start <= p <= endd <= len,
            len == header@.len(),
            forall|j: int| p <= j < endd ==> #[trigger] header@[j] != ' ',
        decreases p,
    {
        p -= 1;
    }
    proof {
        lemma_trim_start_idx(header@, start as int);
        let t0 = header@.subrange(start as int, len as int);
        lemma_trim_end_idx(t0, endd - start);
        assert(t0.subrange(0, endd - start) =~= header@.subrange(start as int, endd as int));
        let t = header@.subrange(start as int, endd as int);
        lemma_last_token_idx(t, p - start);
        assert(t.subrange(p - start, t.len() as int) =~= header@.subrange(p as int, endd as int));
    }
    header.substring_char(p, endd).to_owned()
}

} // verus!
