//! Byte-level scanning helpers: equality, field splitting, small vector glue.

use vstd::prelude::*;
use vstd::string::StringSliceAdditionalSpecFns;
use vstd::utf8::valid_utf8;

verus! {

/// The UTF-8 bytes a string occupies on the wire.
pub open spec fn string_bytes(s: String) -> Seq<u8> {
    vstd::utf8::encode_utf8(s@)
}

/// Relies on std::str::from_utf8: it accepts exactly the valid UTF-8 byte
/// sequences, and the accepted string's bytes are the input bytes.
#[verifier::external_body]
pub fn utf8_to_string(v: &[u8]) -> (r: Option<String>)
    ensures
        r is Some <==> valid_utf8(v@),
        r matches Some(s) ==> string_bytes(s) == v@,
{
    match std::str::from_utf8(v) {
        Ok(s) => Some(s.to_owned()),
        Err(_) => None,
    }
}

/// The views of a sequence of byte vectors, element by element.
pub open spec fn seq_views(ts: Seq<Vec<u8>>) -> Seq<Seq<u8>> {
    Seq::new(ts.len(), |i: int| ts[i]@)
}

/// Byte-for-byte equality of two slices.
pub fn bytes_eq(a: &[u8], b: &[u8]) -> (r: bool)
    ensures
        r == (a@ == b@),
{
    if a.len() != b.len() {
        return false;
    }
    let mut i: usize = 0;
    while i < a.len()
        invariant
            i <= a@.len(),
            a@.len() == b@.len(),
            forall|j: int| 0 <= j < i ==> a@[j] == b@[j],
        decreases a@.len() - i,
    {
        if a[i] != b[i] {
            return false;
        }
        i = i + 1;
    }
    proof {
        assert(a@ =~= b@);
    }
    true
}

/// Which bytes separate fields during a split.
#[derive(Debug, Clone, Copy, PartialEq, Eq, Structural)]
pub enum FieldSep {
    /// ASCII whitespace: space, tab, carriage return, line feed.
    Whitespace,
    /// Line feeds only.
    Newline,
}

pub open spec fn is_sep(sep: FieldSep, b: u8) -> bool {
    match sep {
        FieldSep::Whitespace => b == 32 || b == 9 || b == 13 || b == 10,
        FieldSep::Newline => b == 10,
    }
}

/// The maximal runs of non-separator bytes of `s`, in order.  Separator
/// bytes are dropped, so empty fields never appear.
pub open spec fn spec_split(sep: FieldSep, s: Seq<u8>) -> Seq<Seq<u8>>
    decreases s.len(),
{
    if s.len() == 0 {
        Seq::empty()
    } else {
        let prefix = s.drop_last();
        let c = s.last();
        let rest = spec_split(sep, prefix);
        if is_sep(sep, c) {
            rest
        } else if prefix.len() == 0 || is_sep(sep, prefix.last()) {
            rest.push(seq![c])
        } else {
            rest.update(rest.len() - 1, rest.last().push(c))
        }
    }
}

/// A split ends with a non-empty field whenever the input ends with a
/// non-separator byte.
proof fn lemma_split_open_run(sep: FieldSep, s: Seq<u8>)
    requires
        s.len() > 0,
        !is_sep(sep, s.last()),
    ensures
        spec_split(sep, s).len() > 0,
        spec_split(sep, s).last().len() > 0,
    decreases s.len(),
{
    let prefix = s.drop_last();
    if prefix.len() == 0 || is_sep(sep, prefix.last()) {
    } else {
        lemma_split_open_run(sep, prefix);
    }
}

fn sep_matches(sep: FieldSep, b: u8) -> (r: bool)
    ensures
        r == is_sep(sep, b),
{
    match sep {
        FieldSep::Whitespace => b == 32 || b == 9 || b == 13 || b == 10,
        FieldSep::Newline => b == 10,
    }
}

/// Split `s` into its maximal non-separator runs.
pub fn split_bytes(sep: FieldSep, s: &[u8]) -> (r: Vec<Vec<u8>>)
    ensures
        seq_views(r@) == spec_split(sep, s@),
{
    let mut fields: Vec<Vec<u8>> = Vec::new();
    let mut cur: Vec<u8> = Vec::new();
    let mut i: usize = 0;
    while i < s.len()
        invariant
            i <= s@.len(),
            cur@.len() == 0 ==> seq_views(fields@) == spec_split(sep, s@.subrange(0, i as int)),
            cur@.len() == 0 ==> (i == 0 || is_sep(sep, s@[i as int - 1])),
            cur@.len() > 0 ==> seq_views(fields@).push(cur@) == spec_split(
                sep,
                s@.subrange(0, i as int),
            ),
            cur@.len() > 0 ==> (i > 0 && !is_sep(sep, s@[i as int - 1])),
        decreases s@.len() - i,
    {
        let ghost pre = s@.subrange(0, i as int);
        let ghost post = s@.subrange(0, i as int + 1);
        proof {
            assert(post.drop_last() =~= pre);
            assert(post.last() == s@[i as int]);
        }
        let c = s[i];
        if sep_matches(sep, c) {
            if cur.len() > 0 {
                proof {
                    assert(seq_views(fields@.push(cur)) =~= seq_views(fields@).push(cur@));
                }
                fields.push(cur);
                cur = Vec::new();
            }
        } else {
            if cur.len() == 0 {
                proof {
                    assert(spec_split(sep, post) == spec_split(sep, pre).push(seq![c]));
                }
                cur.push(c);
                proof {
                    assert(cur@ =~= seq![c]);
                }
            } else {
                let ghost old_cur = cur@;
                let ghost rest = spec_split(sep, pre);
                proof {
                    lemma_split_open_run(sep, pre);
                    assert(rest.last() == cur@);
                    assert(spec_split(sep, post) == rest.update(rest.len() - 1, cur@.push(c)));
                    assert(rest.update(rest.len() - 1, cur@.push(c)) =~= seq_views(
                        fields@,
                    ).push(cur@.push(c)));
                }
                cur.push(c);
            }
        }
        i = i + 1;
    }
    proof {
        assert(s@.subrange(0, s@.len() as int) =~= s@);
    }
    if cur.len() > 0 {
        proof {
            assert(seq_views(fields@.push(cur)) =~= seq_views(fields@).push(cur@));
        }
        fields.push(cur);
    }
    fields
}

/// Append every byte of `src` to `out`.
pub fn push_all(out: &mut Vec<u8>, src: &[u8])
    ensures
        final(out)@ == old(out)@ + src@,
{
    let mut i: usize = 0;
    while i < src.len()
        invariant
            i <= src@.len(),
            out@ == old(out)@ + src@.subrange(0, i as int),
        decreases src@.len() - i,
    {
        proof {
            assert(old(out)@ + src@.subrange(0, i as int + 1) =~= (old(out)@ + src@.subrange(
                0,
                i as int,
            )).push(src@[i as int]));
        }
        out.push(src[i]);
        i = i + 1;
    }
    proof {
        assert(src@.subrange(0, src@.len() as int) =~= src@);
    }
}

} // verus!
