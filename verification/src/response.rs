//! Decoded replies and their accessors, and the flat body formats.
//!
//! A body is either a list (`- value` per line) or a flat string map
//! (`key: value` per line).  Both parsers treat a missing body as the empty
//! result and report anything malformed, never guess.

use vstd::prelude::*;
use vstd::slice::slice_index_get;
use vstd::slice::slice_subrange;
use vstd::utf8::valid_utf8;

use crate::error::BeanstalkcError;
use crate::error::BeanstalkcResult;
use crate::numbers::parse_u64_digits;
use crate::numbers::spec_parse_u64;
use crate::scan::split_bytes;
use crate::scan::string_bytes;
use crate::scan::utf8_to_string;
use crate::scan::FieldSep;
use crate::scan::spec_split;
use crate::status::Status;

verus! {

/// One decoded reply: its status, the parameters after the status keyword in
/// their original string form, and the raw body bytes when the status
/// carries one.
#[derive(Debug)]
pub struct Response {
    pub status: Status,
    pub params: Vec<String>,
    pub body: Option<Vec<u8>>,
}

impl Default for Response {
    /// An `OK` reply with no parameters and no body.
    fn default() -> (r: Response)
        ensures
            r.status == Status::Okay,
            r.params@.len() == 0,
            r.body is None,
    {
        Response { status: Status::Okay, params: Vec::new(), body: Option::None }
    }
}

impl Response {
    /// The job id: the integer parameter at index 0.
    pub fn job_id(&self) -> (r: BeanstalkcResult<u64>)
        ensures
            match r {
                Ok(n) => self.params@.len() > 0 && spec_parse_u64(string_bytes(self.params@[0]))
                    == Some(n),
                Err(e) => (self.params@.len() == 0 || spec_parse_u64(
                    string_bytes(self.params@[0]),
                ) is None) && e is UnexpectedResponse,
            },
    {
        self.get_int_param(0)
    }

    /// The parameter at `index` read as a decimal integer.
    pub fn get_int_param(&self, index: usize) -> (r: BeanstalkcResult<u64>)
        ensures
            match r {
                Ok(n) => index < self.params@.len() && spec_parse_u64(
                    string_bytes(self.params@[index as int]),
                ) == Some(n),
                Err(e) => (index >= self.params@.len() || spec_parse_u64(
                    string_bytes(self.params@[index as int]),
                ) is None) && e is UnexpectedResponse,
            },
    {
        if index >= self.params.len() {
            return Err(
                BeanstalkcError::UnexpectedResponse(String::from_str("param not found")),
            );
        }
        match parse_u64_digits(self.params[index].as_str().as_bytes()) {
            Some(n) => Ok(n),
            None => Err(
                BeanstalkcError::UnexpectedResponse(String::from_str("param is not a number")),
            ),
        }
    }

    /// The parameter at `index`, as sent.
    pub fn get_param(&self, index: usize) -> (r: BeanstalkcResult<String>)
        ensures
            match r {
                Ok(s) => index < self.params@.len() && s == self.params@[index as int],
                Err(e) => index >= self.params@.len() && e is UnexpectedResponse,
            },
    {
        if index < self.params.len() {
            Ok(self.params[index].clone())
        } else {
            Err(BeanstalkcError::UnexpectedResponse(String::from_str("param not found")))
        }
    }

    /// Parse the body as a list, one `- value` line per item.  A missing
    /// body is the empty list; a malformed line or non-UTF-8 item is an
    /// `UnexpectedResponse`.
    #[verifier::loop_isolation(false)]
    pub fn body_as_vec(&self) -> (r: BeanstalkcResult<Vec<String>>)
        ensures
            match r {
                Ok(v) => match self.body {
                    Option::None => v@.len() == 0,
                    Option::Some(b) => spec_list_items(
                        spec_split(FieldSep::Newline, b@),
                    ) matches Some(its) && all_items_utf8(its) && v@.len() == its.len() && (forall|
                        i: int,
                    |
                        0 <= i < its.len() ==> string_bytes(#[trigger] v@[i]) == its[i]),
                },
                Err(e) => e is UnexpectedResponse && match self.body {
                    Option::None => false,
                    Option::Some(b) => spec_list_items(spec_split(FieldSep::Newline, b@)) is None
                        || !all_items_utf8(
                        spec_list_items(spec_split(FieldSep::Newline, b@)) ->Some_0,
                    ),
                },
            },
    {
        let b = match &self.body {
            Option::None => {
                return Ok(Vec::new());
            },
            Option::Some(b) => b,
        };
        let lines = split_bytes(FieldSep::Newline, b.as_slice());
        let ghost line_views = spec_split(FieldSep::Newline, b@);
        proof {
            lemma_list_items_shape(line_views);
        }
        let mut items: Vec<String> = Vec::new();
        let mut i: usize = 0;
        while i < lines.len()
            invariant
                i <= lines@.len(),
                items@.len() == i,
                forall|j: int|
                    0 <= j < i ==> spec_list_line_wf(#[trigger] line_views[j]) && valid_utf8(
                        spec_list_item(line_views[j]),
                    ) && string_bytes(items@[j]) == spec_list_item(line_views[j]),
            decreases lines@.len() - i,
        {
            let line = lines[i].as_slice();
            proof {
                assert(line@ == line_views[i as int]);
            }
            if line.len() < 2 || *slice_index_get(line, 0) != 45 || *slice_index_get(line, 1)
                != 32 {
                proof {
                    assert(!spec_list_line_wf(line_views[i as int]));
                }
                return Err(
                    BeanstalkcError::UnexpectedResponse(String::from_str("malformed list line")),
                );
            }
            let item_bytes = slice_subrange(line, 2, line.len());
            proof {
                assert(item_bytes@ == spec_list_item(line_views[i as int]));
            }
            match utf8_to_string(item_bytes) {
                Option::Some(s) => {
                    items.push(s);
                },
                Option::None => {
                    proof {
                        if spec_list_items(line_views) is Some {
                            let its = spec_list_items(line_views)->Some_0;
                            assert(its[i as int] == spec_list_item(line_views[i as int]));
                            assert(!valid_utf8(its[i as int]));
                            assert(!all_items_utf8(its));
                        }
                    }
                    return Err(
                        BeanstalkcError::UnexpectedResponse(
                            String::from_str("list item is not UTF-8"),
                        ),
                    );
                },
            }
            i = i + 1;
        }
        proof {
            assert(spec_list_items(line_views) is Some);
            let its = spec_list_items(line_views)->Some_0;
            assert forall|j: int| 0 <= j < its.len() implies valid_utf8(#[trigger] its[j])
                && string_bytes(items@[j]) == its[j] by {
                assert(its[j] == spec_list_item(line_views[j]));
            }
        }
        Ok(items)
    }

    /// Parse the body as a flat string map, one `key: value` line per entry.
    /// A missing body is the empty map; a malformed line or non-UTF-8 entry
    /// is an `UnexpectedResponse`.  Entries keep their line order; lookups
    /// resolve a repeated key to its last occurrence.
    #[verifier::loop_isolation(false)]
    pub fn body_as_map(&self) -> (r: BeanstalkcResult<StatsMap>)
        ensures
            match r {
                Ok(m) => match self.body {
                    Option::None => m.spec_pairs().len() == 0,
                    Option::Some(b) => spec_kv_items(
                        spec_split(FieldSep::Newline, b@),
                    ) matches Some(ps) && all_pairs_utf8(ps) && m.spec_pairs().len() == ps.len()
                        && (forall|i: int|
                        0 <= i < ps.len() ==> string_bytes((#[trigger] m.spec_pairs()[i]).0)
                            == ps[i].0 && string_bytes(m.spec_pairs()[i].1) == ps[i].1),
                },
                Err(e) => e is UnexpectedResponse && match self.body {
                    Option::None => false,
                    Option::Some(b) => spec_kv_items(spec_split(FieldSep::Newline, b@)) is None
                        || !all_pairs_utf8(
                        spec_kv_items(spec_split(FieldSep::Newline, b@)) ->Some_0,
                    ),
                },
            },
    {
        let b = match &self.body {
            Option::None => {
                return Ok(StatsMap { entries: Vec::new() });
            },
            Option::Some(b) => b,
        };
        let lines = split_bytes(FieldSep::Newline, b.as_slice());
        let ghost line_views = spec_split(FieldSep::Newline, b@);
        proof {
            lemma_kv_items_shape(line_views);
        }
        let mut entries: Vec<(String, String)> = Vec::new();
        let mut i: usize = 0;
        while i < lines.len()
            invariant
                i <= lines@.len(),
                entries@.len() == i,
                forall|j: int|
                    0 <= j < i ==> (spec_kv_of_line(#[trigger] line_views[j]) matches Some(p)
                        && valid_utf8(p.0) && valid_utf8(p.1) && string_bytes(entries@[j].0) == p.0
                        && string_bytes(entries@[j].1) == p.1),
            decreases lines@.len() - i,
        {
            let line = lines[i].as_slice();
            proof {
                assert(line@ == line_views[i as int]);
            }
            let ghost kv = spec_kv_of_line(line_views[i as int]);
            let n = line.len();
            let sep = match find_kv_sep(line) {
                Option::Some(sep) => sep,
                Option::None => {
                    proof {
                        assert(kv is None);
                    }
                    return Err(
                        BeanstalkcError::UnexpectedResponse(
                            String::from_str("malformed map line"),
                        ),
                    );
                },
            };
            let key_bytes = slice_subrange(line, 0, sep);
            let value_bytes = slice_subrange(line, sep + 2, n);
            proof {
                assert(kv matches Some(p) && p.0 == key_bytes@ && p.1 == value_bytes@);
            }
            let key = match utf8_to_string(key_bytes) {
                Option::Some(s) => s,
                Option::None => {
                    proof {
                        if spec_kv_items(line_views) is Some {
                            let ps = spec_kv_items(line_views)->Some_0;
                            assert(Some(ps[i as int]) == spec_kv_of_line(line_views[i as int]));
                            assert(!(valid_utf8(ps[i as int].0) && valid_utf8(ps[i as int].1)));
                            assert(!all_pairs_utf8(ps));
                        }
                    }
                    return Err(
                        BeanstalkcError::UnexpectedResponse(
                            String::from_str("map key is not UTF-8"),
                        ),
                    );
                },
            };
            let value = match utf8_to_string(value_bytes) {
                Option::Some(s) => s,
                Option::None => {
                    proof {
                        if spec_kv_items(line_views) is Some {
                            let ps = spec_kv_items(line_views)->Some_0;
                            assert(Some(ps[i as int]) == spec_kv_of_line(line_views[i as int]));
                            assert(!(valid_utf8(ps[i as int].0) && valid_utf8(ps[i as int].1)));
                            assert(!all_pairs_utf8(ps));
                        }
                    }
                    return Err(
                        BeanstalkcError::UnexpectedResponse(
                            String::from_str("map value is not UTF-8"),
                        ),
                    );
                },
            };
            entries.push((key, value));
            i = i + 1;
        }
        proof {
            assert(spec_kv_items(line_views) is Some);
            let ps = spec_kv_items(line_views)->Some_0;
            assert forall|j: int|
                0 <= j < ps.len() implies valid_utf8((#[trigger] ps[j]).0) && valid_utf8(ps[j].1)
                && string_bytes(entries@[j].0) == ps[j].0 && string_bytes(entries@[j].1)
                == ps[j].1 by {
                assert(Some(ps[j]) == spec_kv_of_line(line_views[j]));
            }
        }
        Ok(StatsMap { entries })
    }
}

/// A well-formed list line: `- ` followed by the item bytes.
pub open spec fn spec_list_line_wf(line: Seq<u8>) -> bool {
    line.len() >= 2 && line[0] == 45 && line[1] == 32
}

/// The item bytes of a well-formed list line.
pub open spec fn spec_list_item(line: Seq<u8>) -> Seq<u8> {
    line.subrange(2, line.len() as int)
}

/// The items of a list body, if every line is well-formed.
pub open spec fn spec_list_items(lines: Seq<Seq<u8>>) -> Option<Seq<Seq<u8>>>
    decreases lines.len(),
{
    if lines.len() == 0 {
        Some(Seq::empty())
    } else {
        match spec_list_items(lines.drop_last()) {
            Option::None => None,
            Option::Some(front) => if spec_list_line_wf(lines.last()) {
                Some(front.push(spec_list_item(lines.last())))
            } else {
                None
            },
        }
    }
}

pub open spec fn all_items_utf8(its: Seq<Seq<u8>>) -> bool {
    forall|i: int| 0 <= i < its.len() ==> valid_utf8(#[trigger] its[i])
}

/// A list body parses exactly when every line is well-formed, and then item
/// `i` comes from line `i`.
proof fn lemma_list_items_shape(lines: Seq<Seq<u8>>)
    ensures
        (spec_list_items(lines) is Some) <==> (forall|i: int|
            0 <= i < lines.len() ==> spec_list_line_wf(#[trigger] lines[i])),
        spec_list_items(lines) matches Some(its) ==> its.len() == lines.len() && (forall|i: int|
            0 <= i < lines.len() ==> its[i] == spec_list_item(#[trigger] lines[i])),
    decreases lines.len(),
{
    if lines.len() == 0 {
    } else {
        let front = lines.drop_last();
        lemma_list_items_shape(front);
        assert(forall|i: int| 0 <= i < front.len() ==> front[i] == #[trigger] lines[i]);
        if forall|i: int| 0 <= i < lines.len() ==> spec_list_line_wf(#[trigger] lines[i]) {
            assert(spec_list_line_wf(lines.last()));
        }
    }
}

/// A `key: value` separator at position `j` of the line.
pub open spec fn kv_marker(line: Seq<u8>, j: int) -> bool {
    0 <= j && j + 1 < line.len() && line[j] == 58 && line[j + 1] == 32
}

/// The position of the first `: ` separator of the line, if any.
pub open spec fn spec_find_kv_sep(line: Seq<u8>) -> Option<int>
    decreases line.len(),
{
    if line.len() < 2 {
        None
    } else if line[0] == 58 && line[1] == 32 {
        Some(0)
    } else {
        match spec_find_kv_sep(line.drop_first()) {
            Option::None => None,
            Option::Some(j) => Some(j + 1),
        }
    }
}

/// The key and value of a map line: the bytes before the first `: ` and the
/// bytes after it.
pub open spec fn spec_kv_of_line(line: Seq<u8>) -> Option<(Seq<u8>, Seq<u8>)> {
    match spec_find_kv_sep(line) {
        Option::None => None,
        Option::Some(j) => Some((line.subrange(0, j), line.subrange(j + 2, line.len() as int))),
    }
}

/// The key-value pairs of a map body, if every line has a separator.
pub open spec fn spec_kv_items(lines: Seq<Seq<u8>>) -> Option<Seq<(Seq<u8>, Seq<u8>)>>
    decreases lines.len(),
{
    if lines.len() == 0 {
        Some(Seq::empty())
    } else {
        match spec_kv_items(lines.drop_last()) {
            Option::None => None,
            Option::Some(front) => match spec_kv_of_line(lines.last()) {
                Option::None => None,
                Option::Some(p) => Some(front.push(p)),
            },
        }
    }
}

pub open spec fn all_pairs_utf8(ps: Seq<(Seq<u8>, Seq<u8>)>) -> bool {
    forall|i: int| 0 <= i < ps.len() ==> valid_utf8((#[trigger] ps[i]).0) && valid_utf8(ps[i].1)
}

/// A map body parses exactly when every line has a separator, and then pair
/// `i` comes from line `i`.
proof fn lemma_kv_items_shape(lines: Seq<Seq<u8>>)
    ensures
        (spec_kv_items(lines) is Some) <==> (forall|i: int|
            0 <= i < lines.len() ==> spec_kv_of_line(#[trigger] lines[i]) is Some),
        spec_kv_items(lines) matches Some(ps) ==> ps.len() == lines.len() && (forall|i: int|
            0 <= i < lines.len() ==> Some(ps[i]) == spec_kv_of_line(#[trigger] lines[i])),
    decreases lines.len(),
{
    if lines.len() == 0 {
    } else {
        let front = lines.drop_last();
        lemma_kv_items_shape(front);
        assert(forall|i: int| 0 <= i < front.len() ==> front[i] == #[trigger] lines[i]);
        if forall|i: int| 0 <= i < lines.len() ==> spec_kv_of_line(#[trigger] lines[i]) is Some {
            assert(spec_kv_of_line(lines.last()) is Some);
        }
    }
}

/// A marker with no marker before it is the first one.
proof fn lemma_first_kv_marker(line: Seq<u8>, j: int)
    requires
        kv_marker(line, j),
        forall|t: int| 0 <= t < j ==> !(#[trigger] line[t] == 58 && line[t + 1] == 32),
    ensures
        spec_find_kv_sep(line) == Some(j),
    decreases j,
{
    if j == 0 {
    } else {
        let rest = line.drop_first();
        assert(forall|i: int| 0 <= i < rest.len() ==> rest[i] == line[i + 1]);
        lemma_first_kv_marker(rest, j - 1);
    }
}

/// No marker anywhere means no separator is found.
proof fn lemma_no_kv_marker(line: Seq<u8>)
    requires
        forall|t: int| !kv_marker(line, t),
    ensures
        spec_find_kv_sep(line) is None,
    decreases line.len(),
{
    if line.len() < 2 {
    } else {
        assert(!kv_marker(line, 0));
        let rest = line.drop_first();
        assert(forall|i: int| 0 <= i < rest.len() ==> rest[i] == line[i + 1]);
        assert forall|t: int| !kv_marker(rest, t) by {
            if kv_marker(rest, t) {
                assert(kv_marker(line, t + 1));
            }
        }
        lemma_no_kv_marker(rest);
    }
}

/// Find the first `: ` separator of a map line.
#[verifier::loop_isolation(false)]
fn find_kv_sep(line: &[u8]) -> (r: Option<usize>)
    ensures
        match r {
            Some(j) => spec_find_kv_sep(line@) == Some(j as int) && kv_marker(line@, j as int),
            None => spec_find_kv_sep(line@) is None,
        },
{
    if line.len() < 2 {
        proof {
            lemma_no_kv_marker(line@);
        }
        return None;
    }
    let mut k: usize = 0;
    while k + 1 < line.len()
        invariant
            line@.len() >= 2,
            k + 1 <= line@.len(),
            forall|t: int| 0 <= t < k ==> !(#[trigger] line@[t] == 58 && line@[t + 1] == 32),
        decreases line@.len() - k,
    {
        if *slice_index_get(line, k) == 58 && *slice_index_get(line, k + 1) == 32 {
            proof {
                lemma_first_kv_marker(line@, k as int);
            }
            return Some(k);
        }
        k = k + 1;
    }
    proof {
        assert forall|t: int| !kv_marker(line@, t) by {
            if kv_marker(line@, t) {
                assert(0 <= t && t + 1 < line@.len());
                assert(t < k);
            }
        }
        lemma_no_kv_marker(line@);
    }
    None
}

/// A flat string-to-string mapping parsed from a stats body.  Entries keep
/// their line order; a lookup resolves a repeated key to its last
/// occurrence.
#[derive(Debug)]
pub struct StatsMap {
    entries: Vec<(String, String)>,
}

/// The value bound to `key`, taking the last matching pair.
pub open spec fn spec_lookup(pairs: Seq<(String, String)>, key: Seq<char>) -> Option<String>
    decreases pairs.len(),
{
    if pairs.len() == 0 {
        None
    } else if pairs.last().0@ == key {
        Some(pairs.last().1)
    } else {
        spec_lookup(pairs.drop_last(), key)
    }
}

impl StatsMap {
    /// The entries, in line order.
    pub closed spec fn spec_pairs(self) -> Seq<(String, String)> {
        self.entries@
    }

    /// An empty map.
    pub fn new() -> (m: StatsMap)
        ensures
            m.spec_pairs().len() == 0,
    {
        StatsMap { entries: Vec::new() }
    }

    /// How many entries were parsed.
    pub fn len(&self) -> (n: usize)
        ensures
            n == self.spec_pairs().len(),
    {
        self.entries.len()
    }

    /// The entries in line order, for callers that want them all.
    pub fn entries(&self) -> (r: &Vec<(String, String)>)
        ensures
            r@ == self.spec_pairs(),
    {
        &self.entries
    }

    /// Look a key up; a repeated key resolves to its last occurrence.
    #[verifier::loop_isolation(false)]
    pub fn get(&self, key: &str) -> (r: Option<String>)
        ensures
            r == spec_lookup(self.spec_pairs(), key@),
    {
        let wanted = String::from_str(key);
        let mut i: usize = self.entries.len();
        proof {
            assert(self.entries@.subrange(0, i as int) =~= self.entries@);
        }
        while i > 0
            invariant
                i <= self.entries@.len(),
                spec_lookup(self.entries@, key@) == spec_lookup(
                    self.entries@.subrange(0, i as int),
                    key@,
                ),
            decreases i,
        {
            i = i - 1;
            let ghost sub = self.entries@.subrange(0, i as int + 1);
            proof {
                assert(sub.drop_last() =~= self.entries@.subrange(0, i as int));
                assert(sub.last() == self.entries@[i as int]);
            }
            if self.entries[i].0 == wanted {
                return Some(self.entries[i].1.clone());
            }
        }
        proof {
            assert(self.entries@.subrange(0, 0) =~= Seq::<(String, String)>::empty());
        }
        None
    }
}

} // verus!
