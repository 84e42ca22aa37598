//! Byte-sequence utilities shared by the parser and the serializer:
//! equality and prefix tests, separator search, splitting and joining,
//! concatenation, and rendering integers as ASCII decimal digits.

use vstd::prelude::*;

verus! {

/// The views of a sequence of byte vectors.
pub open spec fn seq_views(parts: Seq<Vec<u8>>) -> Seq<Seq<u8>> {
    parts.map_values(|v: Vec<u8>| v@)
}

/// Carriage return then line feed: the HTTP line break.
pub open spec fn crlf() -> Seq<u8> {
    seq![13u8, 10u8]
}

/// The HTTP line break, as bytes.
pub fn crlf_bytes() -> (r: Vec<u8>)
    ensures
        r@ == crlf(),
{
    let mut v: Vec<u8> = Vec::new();
    v.push(13);
    v.push(10);
    proof {
        assert(v@ =~= crlf());
    }
    v
}

/// A single ASCII space: the request-line token separator.
pub open spec fn sp() -> Seq<u8> {
    seq![32u8]
}

/// The request-line token separator, as bytes.
pub fn sp_bytes() -> (r: Vec<u8>)
    ensures
        r@ == sp(),
{
    let mut v: Vec<u8> = Vec::new();
    v.push(32);
    proof {
        assert(v@ =~= sp());
    }
    v
}

/// Colon then space: the separator between a header name and its value.
pub open spec fn header_sep() -> Seq<u8> {
    seq![58u8, 32u8]
}

/// The header name/value separator, as bytes.
pub fn header_sep_bytes() -> (r: Vec<u8>)
    ensures
        r@ == header_sep(),
{
    let mut v: Vec<u8> = Vec::new();
    v.push(58);
    v.push(32);
    proof {
        assert(v@ =~= header_sep());
    }
    v
}

/// Comma then space: the separator inside an `Accept-Encoding` list.
pub open spec fn comma_sep() -> Seq<u8> {
    seq![44u8, 32u8]
}

/// The `Accept-Encoding` list separator, as bytes.
pub fn comma_sep_bytes() -> (r: Vec<u8>)
    ensures
        r@ == comma_sep(),
{
    let mut v: Vec<u8> = Vec::new();
    v.push(44);
    v.push(32);
    proof {
        assert(v@ =~= comma_sep());
    }
    v
}

/// Decimal digits of `n` in ASCII, most significant digit first.
pub open spec fn spec_decimal(n: nat) -> Seq<u8>
    decreases n,
{
    if n < 10 {
        seq![(48 + n) as u8]
    } else {
        spec_decimal(n / 10).push((48 + n % 10) as u8)
    }
}

/// Render `n` as ASCII decimal digits.
pub fn u64_decimal(n: u64) -> (r: Vec<u8>)
    ensures
        r@ == spec_decimal(n as nat),
    decreases n,
{
    if n < 10 {
        let mut v: Vec<u8> = Vec::new();
        v.push(48 + (n as u8));
        proof {
            assert(v@ =~= spec_decimal(n as nat));
        }
        v
    } else {
        let mut v = u64_decimal(n / 10);
        v.push(48 + ((n % 10) as u8));
        v
    }
}

/// Byte-wise equality of two slices.
pub fn bytes_eq(a: &[u8], b: &[u8]) -> (r: bool)
    ensures
        r == (a@ == b@),
{
    if a.len() != b.len() {
        return false;
    }
    let mut i: usize = 0;
    while i < a.len()
        invariant
            a@.len() == b@.len(),
            i <= a@.len(),
            forall|j: int| 0 <= j < i ==> a@[j] == b@[j],
        decreases a@.len() - i,
    {
        if a[i] != b[i] {
            return false;
        }
        i += 1;
    }
    proof {
        assert(a@ =~= b@);
    }
    true
}

/// `prefix` stands at the front of `s`.
pub open spec fn spec_starts_with(s: Seq<u8>, prefix: Seq<u8>) -> bool {
    s.len() >= prefix.len() && s.subrange(0, prefix.len() as int) == prefix
}

/// Prefix test over byte slices.
pub fn bytes_starts_with(s: &[u8], prefix: &[u8]) -> (r: bool)
    ensures
        r == spec_starts_with(s@, prefix@),
{
    if s.len() < prefix.len() {
        return false;
    }
    let head = vstd::slice::slice_subrange(s, 0, prefix.len());
    bytes_eq(head, prefix)
}

/// A copy of `sep` occupies positions `i .. i + sep.len()` of `s`.
pub open spec fn is_match_at(s: Seq<u8>, sep: Seq<u8>, i: int) -> bool {
    0 <= i && i + sep.len() <= s.len() && s.subrange(i, i + sep.len()) == sep
}

/// Position of the leftmost copy of `sep` inside `s`, if any.
pub open spec fn first_match(s: Seq<u8>, sep: Seq<u8>) -> Option<int>
    decreases s.len(),
        when sep.len() > 0
{
    if s.len() < sep.len() {
        None
    } else if s.subrange(0, sep.len() as int) == sep {
        Some(0int)
    } else {
        match first_match(s.subrange(1, s.len() as int), sep) {
            Some(i) => Some(i + 1),
            None => None,
        }
    }
}

/// `first_match` finds a leftmost match: a match where it points, and none
/// before it; and no match at all when it finds none.
pub proof fn lemma_first_match(s: Seq<u8>, sep: Seq<u8>)
    requires
        sep.len() > 0,
    ensures
        match first_match(s, sep) {
            Some(i) => is_match_at(s, sep, i) && (forall|j: int|
                0 <= j < i ==> !is_match_at(s, sep, j)),
            None => forall|j: int| !is_match_at(s, sep, j),
        },
    decreases s.len(),
{
    if s.len() < sep.len() {
        assert(forall|j: int| is_match_at(s, sep, j) ==> j + sep.len() <= s.len());
    } else if s.subrange(0, sep.len() as int) == sep {
    } else {
        let t = s.subrange(1, s.len() as int);
        lemma_first_match(t, sep);
        assert forall|j: int| is_match_at(s, sep, j) && j >= 1 implies is_match_at(
            t,
            sep,
            j - 1,
        ) by {
            assert(t.subrange(j - 1, j - 1 + sep.len() as int) =~= s.subrange(
                j,
                j + sep.len() as int,
            ));
        }
        assert forall|j: int| is_match_at(t, sep, j) implies is_match_at(s, sep, j + 1) by {
            assert(s.subrange(j + 1, j + 1 + sep.len() as int) =~= t.subrange(
                j,
                j + sep.len() as int,
            ));
        }
        match first_match(t, sep) {
            Some(i) => {
                assert(is_match_at(s, sep, i + 1));
                assert forall|j: int| 0 <= j < i + 1 implies !is_match_at(s, sep, j) by {
                    if j == 0 {
                        assert(s.subrange(0, sep.len() as int) != sep);
                    } else {
                        assert(!is_match_at(t, sep, j - 1));
                    }
                }
            },
            None => {
                assert forall|j: int| !is_match_at(s, sep, j) by {
                    if j >= 1 && is_match_at(s, sep, j) {
                        assert(is_match_at(t, sep, j - 1));
                    }
                }
            },
        }
    }
}

/// Leftmost occurrence of `sep` inside `s`, as executable search.
pub fn find_first_match(s: &[u8], sep: &[u8]) -> (r: Option<usize>)
    requires
        sep@.len() > 0,
    ensures
        match r {
            Some(i) => first_match(s@, sep@) == Some(i as int),
            None => first_match(s@, sep@) is None,
        },
{
    if sep.len() > s.len() {
        proof {
            lemma_first_match(s@, sep@);
            match first_match(s@, sep@) {
                Some(i) => {
                    assert(is_match_at(s@, sep@, i));
                },
                None => {},
            }
        }
        return None;
    }
    let last = s.len() - sep.len();
    let mut i: usize = 0;
    while i <= last
        invariant
            0 < sep@.len() <= s@.len(),
            s@.len() <= usize::MAX,
            last == s@.len() - sep@.len(),
            i <= last + 1,
            forall|j: int| 0 <= j < i ==> !is_match_at(s@, sep@, j),
        decreases last + 1 - i,
    {
        let w = vstd::slice::slice_subrange(s, i, i + sep.len());
        if bytes_eq(w, sep) {
            proof {
                lemma_first_match(s@, sep@);
                assert(is_match_at(s@, sep@, i as int));
                match first_match(s@, sep@) {
                    Some(k) => {
                        assert(!(k < i) && !(i < k));
                    },
                    None => {},
                }
            }
            return Some(i);
        }
        i += 1;
    }
    proof {
        lemma_first_match(s@, sep@);
        match first_match(s@, sep@) {
            Some(k) => {
                assert(is_match_at(s@, sep@, k));
                assert(k <= last);
                assert(!is_match_at(s@, sep@, k));
            },
            None => {},
        }
    }
    None
}

/// `s` split on every copy of `sep`, leftmost first; the separators are
/// dropped and an empty final piece is kept, as `str::split` does.
pub open spec fn spec_split(s: Seq<u8>, sep: Seq<u8>) -> Seq<Seq<u8>>
    decreases s.len(),
        when sep.len() > 0
        via spec_split_decreases
{
    match first_match(s, sep) {
        None => seq![s],
        Some(i) => seq![s.subrange(0, i)] + spec_split(
            s.subrange(i + sep.len(), s.len() as int),
            sep,
        ),
    }
}

#[via_fn]
proof fn spec_split_decreases(s: Seq<u8>, sep: Seq<u8>) {
    lemma_first_match(s, sep);
}

/// A split has at least one piece.
pub proof fn lemma_split_nonempty(s: Seq<u8>, sep: Seq<u8>)
    requires
        sep.len() > 0,
    ensures
        spec_split(s, sep).len() >= 1,
{
    lemma_first_match(s, sep);
}

/// The pieces joined with `sep` between them.
pub open spec fn spec_join(parts: Seq<Seq<u8>>, sep: Seq<u8>) -> Seq<u8>
    decreases parts.len(),
{
    if parts.len() == 0 {
        Seq::empty()
    } else if parts.len() == 1 {
        parts[0]
    } else {
        parts[0] + sep + spec_join(parts.drop_first(), sep)
    }
}

/// Splitting and then joining on the same separator gives the input back.
pub proof fn lemma_split_join(s: Seq<u8>, sep: Seq<u8>)
    requires
        sep.len() > 0,
    ensures
        spec_join(spec_split(s, sep), sep) == s,
    decreases s.len(),
{
    lemma_first_match(s, sep);
    match first_match(s, sep) {
        None => {
            assert(spec_split(s, sep) =~= seq![s]);
        },
        Some(i) => {
            let rest = s.subrange(i + sep.len(), s.len() as int);
            lemma_split_join(rest, sep);
            lemma_split_nonempty(rest, sep);
            let parts = spec_split(s, sep);
            assert(parts.drop_first() =~= spec_split(rest, sep));
            assert(s =~= s.subrange(0, i) + sep + rest);
        },
    }
}

/// All the pieces laid end to end, with nothing between them.
pub open spec fn spec_concat(parts: Seq<Seq<u8>>) -> Seq<u8>
    decreases parts.len(),
{
    if parts.len() == 0 {
        Seq::empty()
    } else {
        parts[0] + spec_concat(parts.drop_first())
    }
}

/// Append every byte of `src` to `dst`.
pub fn extend_bytes(dst: &mut Vec<u8>, src: &[u8])
    ensures
        final(dst)@ == old(dst)@ + src@,
{
    let mut i: usize = 0;
    while i < src.len()
        invariant
            i <= src@.len(),
            dst@ == old(dst)@ + src@.subrange(0, i as int),
        decreases src@.len() - i,
    {
        dst.push(src[i]);
        proof {
            assert(old(dst)@ + src@.subrange(0, i as int) + seq![src@[i as int]] =~= old(dst)@
                + src@.subrange(0, i + 1));
        }
        i += 1;
    }
    proof {
        assert(old(dst)@ + src@.subrange(0, src@.len() as int) =~= old(dst)@ + src@);
    }
}

/// Split `buf` on every copy of `sep`, leftmost first.
pub fn split_bytes(buf: &[u8], sep: &[u8]) -> (r: Vec<Vec<u8>>)
    requires
        sep@.len() > 0,
    ensures
        seq_views(r@) == spec_split(buf@, sep@),
{
    let mut parts: Vec<Vec<u8>> = Vec::new();
    let mut pos: usize = 0;
    proof {
        assert(buf@.subrange(0, buf@.len() as int) =~= buf@);
        assert(seq_views(parts@) + spec_split(buf@, sep@) =~= spec_split(buf@, sep@));
    }
    loop
        invariant
            sep@.len() > 0,
            pos <= buf@.len(),
            spec_split(buf@, sep@) == seq_views(parts@) + spec_split(
                buf@.subrange(pos as int, buf@.len() as int),
                sep@,
            ),
        decreases buf@.len() - pos,
    {
        let suffix = vstd::slice::slice_subrange(buf, pos, buf.len());
        match find_first_match(suffix, sep) {
            Some(i) => {
                proof {
                    lemma_first_match(suffix@, sep@);
                }
                let piece = vstd::slice::slice_to_vec(
                    vstd::slice::slice_subrange(buf, pos, pos + i),
                );
                let ghost old_parts = parts@;
                parts.push(piece);
                pos = pos + i + sep.len();
                proof {
                    assert(seq_views(parts@) =~= seq_views(old_parts).push(piece@));
                    assert(suffix@.subrange(0, i as int) =~= buf@.subrange(
                        pos - i - sep@.len(),
                        pos - sep@.len(),
                    ));
                    assert(suffix@.subrange(i + sep@.len(), suffix@.len() as int)
                        =~= buf@.subrange(pos as int, buf@.len() as int));
                    assert(seq_views(old_parts) + spec_split(suffix@, sep@) =~= seq_views(
                        parts@,
                    ) + spec_split(buf@.subrange(pos as int, buf@.len() as int), sep@));
                }
            },
            None => {
                let piece = vstd::slice::slice_to_vec(suffix);
                let ghost old_parts = parts@;
                parts.push(piece);
                proof {
                    assert(seq_views(parts@) =~= seq_views(old_parts).push(piece@));
                    assert(spec_split(suffix@, sep@) =~= seq![suffix@]);
                    assert(seq_views(parts@) =~= seq_views(old_parts) + spec_split(
                        suffix@,
                        sep@,
                    ));
                }
                return parts;
            },
        }
    }
}

/// Concatenate the pieces of `parts` from index `from` on.
pub fn concat_from(parts: &Vec<Vec<u8>>, from: usize) -> (r: Vec<u8>)
    requires
        from <= parts@.len(),
    ensures
        r@ == spec_concat(seq_views(parts@).skip(from as int)),
{
    let mut acc: Vec<u8> = Vec::new();
    let mut i: usize = from;
    while i < parts.len()
        invariant
            from <= i <= parts@.len(),
            acc@ + spec_concat(seq_views(parts@).skip(i as int)) == spec_concat(
                seq_views(parts@).skip(from as int),
            ),
        decreases parts@.len() - i,
    {
        proof {
            let dv = seq_views(parts@);
            assert(dv.skip(i as int).drop_first() =~= dv.skip(i + 1));
            assert(dv.skip(i as int)[0] == parts@[i as int]@);
        }
        extend_bytes(&mut acc, parts[i].as_slice());
        i += 1;
    }
    proof {
        assert(seq_views(parts@).skip(i as int) =~= Seq::<Seq<u8>>::empty());
        assert(acc@ =~= acc@ + Seq::<u8>::empty());
    }
    acc
}

} // verus!
