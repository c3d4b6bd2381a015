//! MCCS compliant displays report their supported capabilities in a string of
//! bracketed, tagged entries; this module parses that string.
use vstd::prelude::*;
use vstd::string::{StringExecFns, StringSliceAdditionalSpecFns};
use vstd::utf8::{decode_utf8, valid_utf8};

use super::features::{
    capability_kind_of, feature_code_of, input_source_of, osd_language_of, AnonymousVcpValue, DiscreteValues,
    InputSource, OsdLanguages, VcpCapability, VcpCapabilityKind, VcpFeatureCode,
};
use super::{DisplayTechnology, Protocol, UnknownData, UnknownTag, Version};
use crate::ddc::ci::{opcode_of, DdcOpcode};

verus! {

/// Why a capability string was refused.
#[derive(Debug, Clone, Copy, PartialEq, Eq, Structural)]
pub enum CapabilityParseError {
    /// The string does not follow the grammar, or an entry's value does not
    /// have the form its tag calls for.
    InvalidData,
    /// The string is not UTF-8 text.
    NotUtf8,
}

pub open spec fn is_space(b: u8) -> bool {
    b == 0x20 || b == 0x09
}

pub open spec fn is_digit(b: u8) -> bool {
    0x30 <= b <= 0x39
}

/// The first position from `i` on that does not hold a space or tab.
pub open spec fn skip_spaces(s: Seq<u8>, i: int) -> int
    decreases s.len() - i,
{
    if 0 <= i < s.len() && is_space(s[i]) {
        skip_spaces(s, i + 1)
    } else {
        i
    }
}

/// A tag runs up to a bracket or a space.
pub open spec fn is_tag_byte(b: u8) -> bool {
    b != 0x28 && b != 0x29 && !is_space(b)
}

pub open spec fn tag_end(s: Seq<u8>, i: int) -> int
    decreases s.len() - i,
{
    if 0 <= i < s.len() && is_tag_byte(s[i]) {
        tag_end(s, i + 1)
    } else {
        i
    }
}

pub open spec fn digit_end(s: Seq<u8>, i: int) -> int
    decreases s.len() - i,
{
    if 0 <= i < s.len() && is_digit(s[i]) {
        digit_end(s, i + 1)
    } else {
        i
    }
}

/// The value of the decimal digits in `s[i..j]`.
pub open spec fn decimal_value(s: Seq<u8>, i: int, j: int) -> nat
    decreases j - i,
{
    if j <= i {
        0
    } else {
        decimal_value(s, i, j - 1) * 10 + (s[j - 1] - 0x30) as nat
    }
}

/// The position of the bracket that closes, at nesting `depth`, the text
/// from `i` on.
pub open spec fn close_paren(s: Seq<u8>, i: int, depth: nat) -> Option<int>
    decreases s.len() - i,
{
    if i < 0 || i >= s.len() {
        None
    } else if s[i] == 0x29 {
        if depth == 0 {
            Some(i)
        } else {
            close_paren(s, i + 1, (depth - 1) as nat)
        }
    } else if s[i] == 0x28 {
        close_paren(s, i + 1, depth + 1)
    } else {
        close_paren(s, i + 1, depth)
    }
}

/// One entry of a capability string: its tag and the bytes of its value.
pub struct EntryView {
    pub tag: Seq<u8>,
    pub value: Seq<u8>,
    pub binary: bool,
}

/// `bin(`
pub open spec fn is_bin_marker(s: Seq<u8>, j: int) -> bool {
    0 <= j && j + 4 <= s.len() && s[j] == 0x62 && s[j + 1] == 0x69 && s[j + 2] == 0x6e && s[j + 3]
        == 0x28
}

/// The entry that starts at `i` and ends before `end`, and the position
/// after it. An entry is a tag, optional spaces, and either a bracketed value
/// (which may hold further brackets) or `bin(N(...))` with exactly N raw
/// bytes inside. The tag must be UTF-8.
pub open spec fn entry_at(s: Seq<u8>, i: int, end: int) -> Option<(EntryView, int)> {
    let t = tag_end(s, i);
    let j = skip_spaces(s, t);
    let tag = s.subrange(i, t);
    if t == i || j >= end || !valid_utf8(tag) {
        None
    } else if s[j] == 0x28 {
        match close_paren(s, j + 1, 0) {
            Some(k) => if k < end {
                Some((EntryView { tag, value: s.subrange(j + 1, k), binary: false }, k + 1))
            } else {
                None
            },
            None => None,
        }
    } else if is_bin_marker(s, j) {
        let d = digit_end(s, j + 4);
        let n = decimal_value(s, j + 4, d) as int;
        if d > j + 4 && d + n + 3 <= end && s[d] == 0x28 && s[d + n + 1] == 0x29 && s[d + n + 2]
            == 0x29 {
            Some((EntryView { tag, value: s.subrange(d + 1, d + 1 + n), binary: true }, d + n + 3))
        } else {
            None
        }
    } else {
        None
    }
}

/// The entries from `i` up to `end`, after those already in `acc`.
pub open spec fn entries_from(s: Seq<u8>, i: int, end: int, acc: Seq<EntryView>) -> Option<
    Seq<EntryView>,
>
    decreases end - i,
{
    let j = skip_spaces(s, i);
    if j >= end {
        Some(acc)
    } else {
        match entry_at(s, j, end) {
            Some((e, next)) => if i < next <= end {
                entries_from(s, next, end, acc.push(e))
            } else {
                None
            },
            None => None,
        }
    }
}

/// The entries of a capability string, which may be wrapped as a whole in
/// one more pair of brackets.
pub open spec fn capability_entries(s: Seq<u8>) -> Option<Seq<EntryView>> {
    let j = skip_spaces(s, 0);
    if j < s.len() && s[j] == 0x28 {
        match close_paren(s, j + 1, 0) {
            Some(k) => if skip_spaces(s, k + 1) == s.len() {
                entries_from(s, j + 1, k, Seq::empty())
            } else {
                None
            },
            None => None,
        }
    } else {
        entries_from(s, j, s.len() as int, Seq::empty())
    }
}

/// Relies on String::from_utf8: the bytes become a string exactly when they
/// are valid UTF-8, and the string holds the characters they encode.
#[verifier::external_body]
fn string_from_utf8(b: &[u8]) -> (r: Option<String>)
    ensures
        r is Some <==> valid_utf8(b@),
        r matches Some(s) ==> s@ == decode_utf8(b@),
{
    String::from_utf8(b.to_vec()).ok()
}

/// Whether the bytes are UTF-8 text.
pub fn is_utf8(b: &[u8]) -> (r: bool)
    ensures
        r == valid_utf8(b@),
{
    string_from_utf8(b).is_some()
}

fn skip_spaces_at(s: &[u8], i: usize) -> (r: usize)
    requires
        i <= s@.len(),
    ensures
        r as int == skip_spaces(s@, i as int),
        i <= r <= s@.len(),
{
    let mut j = i;
    while j < s.len() && (s[j] == 0x20 || s[j] == 0x09)
        invariant
            i <= j <= s@.len(),
            skip_spaces(s@, i as int) == skip_spaces(s@, j as int),
        decreases s@.len() - j,
    {
        j += 1;
    }
    j
}

fn tag_end_at(s: &[u8], i: usize) -> (r: usize)
    requires
        i <= s@.len(),
    ensures
        r as int == tag_end(s@, i as int),
        i <= r <= s@.len(),
{
    let mut j = i;
    while j < s.len() && s[j] != 0x28 && s[j] != 0x29 && s[j] != 0x20 && s[j] != 0x09
        invariant
            i <= j <= s@.len(),
            tag_end(s@, i as int) == tag_end(s@, j as int),
        decreases s@.len() - j,
    {
        j += 1;
    }
    j
}

fn digit_end_at(s: &[u8], i: usize) -> (r: usize)
    requires
        i <= s@.len(),
    ensures
        r as int == digit_end(s@, i as int),
        i <= r <= s@.len(),
        forall|k: int| i <= k < r ==> is_digit(s@[k]),
{
    let mut j = i;
    while j < s.len() && 0x30 <= s[j] && s[j] <= 0x39
        invariant
            i <= j <= s@.len(),
            digit_end(s@, i as int) == digit_end(s@, j as int),
            forall|k: int| i <= k < j ==> is_digit(s@[k]),
        decreases s@.len() - j,
    {
        j += 1;
    }
    j
}

proof fn lemma_decimal_grows(s: Seq<u8>, i: int, j: int, k: int)
    requires
        i <= j <= k,
        forall|m: int| i <= m < k ==> is_digit(s[m]),
    ensures
        decimal_value(s, i, j) <= decimal_value(s, i, k),
    decreases k - j,
{
    if j < k {
        lemma_decimal_grows(s, i, j, k - 1);
    }
}

/// The value of the digits `s[i..j]`, if it is at most `bound`.
fn decimal_at_most(s: &[u8], i: usize, j: usize, bound: usize) -> (r: Option<usize>)
    requires
        i <= j <= s@.len(),
        forall|m: int| i <= m < j ==> is_digit(s@[m]),
    ensures
        r is Some <==> decimal_value(s@, i as int, j as int) <= bound,
        r matches Some(x) ==> x == decimal_value(s@, i as int, j as int),
{
    let mut acc: usize = 0;
    let mut p = i;
    while p < j
        invariant
            i <= p <= j <= s@.len(),
            forall|m: int| i <= m < j ==> is_digit(s@[m]),
            acc == decimal_value(s@, i as int, p as int),
            acc <= bound,
        decreases j - p,
    {
        let d = (s[p] - 0x30) as usize;
        if acc > bound / 10 {
            proof {
                assert(decimal_value(s@, i as int, p + 1) == acc * 10 + d);
                assert(acc * 10 > bound) by (nonlinear_arith)
                    requires
                        acc > bound / 10,
                ;
                lemma_decimal_grows(s@, i as int, p + 1, j as int);
            }
            return None;
        }
        assert(acc * 10 <= bound) by (nonlinear_arith)
            requires
                acc <= bound / 10,
        ;
        if d > bound - acc * 10 {
            proof {
                lemma_decimal_grows(s@, i as int, p + 1, j as int);
            }
            return None;
        }
        acc = acc * 10 + d;
        p += 1;
    }
    Some(acc)
}

/// The bracket that closes the text from `i` on.
fn close_paren_at(s: &[u8], i: usize) -> (r: Option<usize>)
    requires
        i <= s@.len(),
    ensures
        match r {
            Some(k) => close_paren(s@, i as int, 0) == Some(k as int) && i <= k < s@.len(),
            None => close_paren(s@, i as int, 0) is None,
        },
{
    let mut j = i;
    let mut depth: usize = 0;
    while j < s.len()
        invariant
            i <= j <= s@.len(),
            depth <= j,
            close_paren(s@, i as int, 0) == close_paren(s@, j as int, depth as nat),
        decreases s@.len() - j,
    {
        if s[j] == 0x29 {
            if depth == 0 {
                return Some(j);
            }
            depth -= 1;
        } else if s[j] == 0x28 {
            depth += 1;
        }
        j += 1;
    }
    None
}

/// An entry from a capability string
#[derive(Debug, Clone, PartialEq, Eq)]
pub enum Value {
    /// A normal string
    String {
        /// The value name
        tag: String,
        /// String contents
        value: Vec<u8>,
    },
    /// Raw binary data
    Binary {
        /// The value name
        tag: String,
        /// Data contents
        data: Vec<u8>,
    },
}

/// The value holds the entry.
pub open spec fn value_matches(v: Value, e: EntryView) -> bool {
    match v {
        Value::String { tag, value } => !e.binary && tag@ == decode_utf8(e.tag) && value@ == e.value,
        Value::Binary { tag, data } => e.binary && tag@ == decode_utf8(e.tag) && data@ == e.value,
    }
}

pub open spec fn values_match(vs: Seq<Value>, es: Seq<EntryView>) -> bool {
    vs.len() == es.len() && forall|k: int| 0 <= k < vs.len() ==> value_matches(vs[k], es[k])
}

/// An entry as the tokenizer finds it: the tag's bytes and text, and the
/// value's bytes.
struct RawEntry {
    tag: Vec<u8>,
    name: String,
    value: Vec<u8>,
    binary: bool,
}

spec fn raw_matches(r: RawEntry, e: EntryView) -> bool {
    r.tag@ == e.tag && r.name@ == decode_utf8(e.tag) && r.value@ == e.value && r.binary == e.binary
}

spec fn raws_match(rs: Seq<RawEntry>, es: Seq<EntryView>) -> bool {
    rs.len() == es.len() && forall|k: int| 0 <= k < rs.len() ==> raw_matches(rs[k], es[k])
}

fn entry_at_exec(s: &[u8], i: usize, end: usize) -> (r: Option<(RawEntry, usize)>)
    requires
        i < end <= s@.len(),
    ensures
        match entry_at(s@, i as int, end as int) {
            Some((e, next)) => r matches Some((v, n)) && n == next && raw_matches(v, e) && i < n
                <= end,
            None => r is None,
        },
{
    let t = tag_end_at(s, i);
    let j = skip_spaces_at(s, t);
    if t == i || j >= end {
        return None;
    }
    let tag_bytes = vstd::slice::slice_subrange(s, i, t);
    let name = match string_from_utf8(tag_bytes) {
        Some(x) => x,
        None => {
            return None;
        },
    };
    if s[j] == 0x28 {
        match close_paren_at(s, j + 1) {
            Some(k) => if k < end {
                let value = vstd::slice::slice_to_vec(vstd::slice::slice_subrange(s, j + 1, k));
                Some((RawEntry { tag: vstd::slice::slice_to_vec(tag_bytes), name, value, binary: false }, k + 1))
            } else {
                None
            },
            None => None,
        }
    } else if 4 <= s.len() - j && s[j] == 0x62 && s[j + 1] == 0x69 && s[j + 2] == 0x6e && s[j + 3]
        == 0x28 {
        let d = digit_end_at(s, j + 4);
        if d == j + 4 {
            return None;
        }
        let n = match decimal_at_most(s, j + 4, d, end) {
            Some(n) => n,
            None => {
                return None;
            },
        };
        if d <= end && n <= end - d && 3 <= end - d - n && s[d] == 0x28 && s[d + n + 1] == 0x29 && s[d + n + 2] == 0x29 {
            let data = vstd::slice::slice_to_vec(vstd::slice::slice_subrange(s, d + 1, d + 1 + n));
            Some((RawEntry { tag: vstd::slice::slice_to_vec(tag_bytes), name, value: data, binary: true }, d + n + 3))
        } else {
            None
        }
    } else {
        None
    }
}

fn entries_exec(s: &[u8], i: usize, end: usize) -> (r: Option<Vec<RawEntry>>)
    requires
        i <= end <= s@.len(),
    ensures
        match entries_from(s@, i as int, end as int, Seq::empty()) {
            Some(es) => r matches Some(vs) && raws_match(vs@, es),
            None => r is None,
        },
{
    let mut acc: Vec<RawEntry> = Vec::new();
    let ghost es: Seq<EntryView> = Seq::empty();
    let mut p = i;
    loop
        invariant
            i <= p <= end <= s@.len(),
            raws_match(acc@, es),
            entries_from(s@, i as int, end as int, Seq::empty()) == entries_from(
                s@,
                p as int,
                end as int,
                es,
            ),
        decreases end - p,
    {
        let j = skip_spaces_at(s, p);
        if j >= end {
            return Some(acc);
        }
        match entry_at_exec(s, j, end) {
            Some((v, next)) => {
                let ghost e = entry_at(s@, j as int, end as int)->Some_0.0;
                acc.push(v);
                proof {
                    es = es.push(e);
                }
                p = next;
            },
            None => {
                return None;
            },
        }
    }
}

fn capability_entries_exec(s: &[u8]) -> (r: Option<Vec<RawEntry>>)
    ensures
        match capability_entries(s@) {
            Some(es) => r matches Some(vs) && raws_match(vs@, es),
            None => r is None,
        },
{
    let j = skip_spaces_at(s, 0);
    if j < s.len() && s[j] == 0x28 {
        match close_paren_at(s, j + 1) {
            Some(k) => if skip_spaces_at(s, k + 1) == s.len() {
                entries_exec(s, j + 1, k)
            } else {
                None
            },
            None => None,
        }
    } else {
        entries_exec(s, j, s.len())
    }
}

impl RawEntry {
    fn into_value(self) -> (r: Value)
        ensures
            forall|e: EntryView| raw_matches(self, e) ==> value_matches(r, e),
    {
        if self.binary {
            Value::Binary { tag: self.name, data: self.value }
        } else {
            Value::String { tag: self.name, value: self.value }
        }
    }
}

impl Value {
    /// Splits a capability string into its entries.
    pub fn parse_capabilities(capability_string: &[u8]) -> (r: Result<
        Vec<Value>,
        CapabilityParseError,
    >)
        ensures
            match capability_entries(capability_string@) {
                Some(es) => r matches Ok(vs) && values_match(vs@, es),
                None => r == Err::<Vec<Value>, CapabilityParseError>(
                    CapabilityParseError::InvalidData,
                ),
            },
    {
        let raws = match capability_entries_exec(capability_string) {
            Some(x) => x,
            None => {
                return Err(CapabilityParseError::InvalidData);
            },
        };
        let ghost es = capability_entries(capability_string@)->Some_0;
        let ghost all = raws@;
        let mut rest = raws;
        let mut out: Vec<Value> = Vec::new();
        while rest.len() > 0
            invariant
                raws_match(all, es),
                out@.len() + rest@.len() == all.len(),
                rest@ == all.subrange(out@.len() as int, all.len() as int),
                forall|k: int| 0 <= k < out@.len() ==> value_matches(out@[k], es[k]),
            decreases rest@.len(),
        {
            let ghost k = out@.len() as int;
            let raw = rest.remove(0);
            assert(raw == all[k]);
            out.push(raw.into_value());
            assert(rest@ =~= all.subrange(out@.len() as int, all.len() as int));
        }
        Ok(out)
    }

    /// Parse a single capability string entry
    pub fn parse_bytes(data: &[u8]) -> (r: Result<Self, CapabilityParseError>)
        ensures
            match entry_at(data@, skip_spaces(data@, 0), data@.len() as int) {
                Some((e, next)) => if skip_spaces(data@, next) == data@.len() {
                    r matches Ok(v) && value_matches(v, e)
                } else {
                    r is Err
                },
                None => r is Err,
            },
    {
        let j = skip_spaces_at(data, 0);
        if j >= data.len() {
            return Err(CapabilityParseError::InvalidData);
        }
        match entry_at_exec(data, j, data.len()) {
            Some((v, next)) => if skip_spaces_at(data, next) == data.len() {
                Ok(v.into_value())
            } else {
                Err(CapabilityParseError::InvalidData)
            },
            None => Err(CapabilityParseError::InvalidData),
        }
    }

    /// Parse a single capability string entry
    pub fn parse(data: &str) -> (r: Result<Self, CapabilityParseError>)
        ensures
            match entry_at(data.spec_bytes(), skip_spaces(data.spec_bytes(), 0), data.spec_bytes().len() as int) {
                Some((e, next)) => if skip_spaces(data.spec_bytes(), next) == data.spec_bytes().len() {
                    r matches Ok(v) && value_matches(v, e)
                } else {
                    r is Err
                },
                None => r is Err,
            },
    {
        Self::parse_bytes(data.as_bytes())
    }

    /// The value name
    pub fn tag(&self) -> (r: &str)
        ensures
            r@ == match self {
                Value::String { tag, .. } => tag@,
                Value::Binary { tag, .. } => tag@,
            },
    {
        match self {
            Value::String { tag, .. } => tag.as_str(),
            Value::Binary { tag, .. } => tag.as_str(),
        }
    }
}


/// What a tag asks of its value.
#[derive(Debug, Clone, Copy, PartialEq, Eq, Structural)]
pub enum TagKind {
    Prot,
    Type,
    Model,
    Cmds,
    Whql,
    MccsVer,
    Vcp,
    Other,
}

pub open spec fn tag_kind_of(t: Seq<u8>) -> TagKind {
    if t == seq![0x70u8, 0x72u8, 0x6fu8, 0x74u8] {
        TagKind::Prot
    } else if t == seq![0x74u8, 0x79u8, 0x70u8, 0x65u8] {
        TagKind::Type
    } else if t == seq![0x6du8, 0x6fu8, 0x64u8, 0x65u8, 0x6cu8] {
        TagKind::Model
    } else if t == seq![0x63u8, 0x6du8, 0x64u8, 0x73u8] {
        TagKind::Cmds
    } else if t == seq![0x6du8, 0x73u8, 0x77u8, 0x68u8, 0x71u8, 0x6cu8] {
        TagKind::Whql
    } else if t == seq![0x6du8, 0x63u8, 0x63u8, 0x73u8, 0x5fu8, 0x76u8, 0x65u8, 0x72u8] {
        TagKind::MccsVer
    } else if t == seq![0x76u8, 0x63u8, 0x70u8] {
        TagKind::Vcp
    } else if t == seq![0x56u8, 0x43u8, 0x50u8] {
        TagKind::Vcp
    } else {
        TagKind::Other
    }
}

fn tag_kind(t: &[u8]) -> (r: TagKind)
    ensures
        r == tag_kind_of(t@),
{
    if t.len() == 4 && t[0] == 0x70 && t[1] == 0x72 && t[2] == 0x6f && t[3] == 0x74 {
        proof {
            assert(t@ =~= seq![0x70u8, 0x72u8, 0x6fu8, 0x74u8]);
        }
        TagKind::Prot
    } else if t.len() == 4 && t[0] == 0x74 && t[1] == 0x79 && t[2] == 0x70 && t[3] == 0x65 {
        proof {
            assert(t@ =~= seq![0x74u8, 0x79u8, 0x70u8, 0x65u8]);
        }
        TagKind::Type
    } else if t.len() == 5 && t[0] == 0x6d && t[1] == 0x6f && t[2] == 0x64 && t[3] == 0x65 && t[4] == 0x6c {
        proof {
            assert(t@ =~= seq![0x6du8, 0x6fu8, 0x64u8, 0x65u8, 0x6cu8]);
        }
        TagKind::Model
    } else if t.len() == 4 && t[0] == 0x63 && t[1] == 0x6d && t[2] == 0x64 && t[3] == 0x73 {
        proof {
            assert(t@ =~= seq![0x63u8, 0x6du8, 0x64u8, 0x73u8]);
        }
        TagKind::Cmds
    } else if t.len() == 6 && t[0] == 0x6d && t[1] == 0x73 && t[2] == 0x77 && t[3] == 0x68 && t[4] == 0x71 && t[5] == 0x6c {
        proof {
            assert(t@ =~= seq![0x6du8, 0x73u8, 0x77u8, 0x68u8, 0x71u8, 0x6cu8]);
        }
        TagKind::Whql
    } else if t.len() == 8 && t[0] == 0x6d && t[1] == 0x63 && t[2] == 0x63 && t[3] == 0x73 && t[4] == 0x5f && t[5] == 0x76 && t[6] == 0x65 && t[7] == 0x72 {
        proof {
            assert(t@ =~= seq![0x6du8, 0x63u8, 0x63u8, 0x73u8, 0x5fu8, 0x76u8, 0x65u8, 0x72u8]);
        }
        TagKind::MccsVer
    } else if t.len() == 3 && t[0] == 0x76 && t[1] == 0x63 && t[2] == 0x70 {
        proof {
            assert(t@ =~= seq![0x76u8, 0x63u8, 0x70u8]);
        }
        TagKind::Vcp
    } else if t.len() == 3 && t[0] == 0x56 && t[1] == 0x43 && t[2] == 0x50 {
        proof {
            assert(t@ =~= seq![0x56u8, 0x43u8, 0x50u8]);
        }
        TagKind::Vcp
    } else {
        TagKind::Other
    }
}

pub open spec fn hex_digit_value(b: u8) -> Option<u8> {
    if 0x30 <= b <= 0x39 {
        Some((b - 0x30) as u8)
    } else if 0x61 <= b <= 0x66 {
        Some((b - 0x57) as u8)
    } else if 0x41 <= b <= 0x46 {
        Some((b - 0x37) as u8)
    } else {
        None
    }
}

/// The byte written as two hex digits at `i`.
pub open spec fn hex_pair(s: Seq<u8>, i: int) -> Option<u8> {
    if 0 <= i && i + 2 <= s.len() && hex_digit_value(s[i]) is Some && hex_digit_value(s[i + 1]) is Some {
        Some((hex_digit_value(s[i])->Some_0 * 16 + hex_digit_value(s[i + 1])->Some_0) as u8)
    } else {
        None
    }
}

/// Space separated hex bytes from `i` on, after those in `acc`, and the
/// position where they stop.
pub open spec fn hex_list(s: Seq<u8>, i: int, acc: Seq<u8>) -> (Seq<u8>, int)
    decreases s.len() - i,
{
    let j = skip_spaces(s, i);
    match hex_pair(s, j) {
        Some(x) => if i < j + 2 <= s.len() {
            hex_list(s, j + 2, acc.push(x))
        } else {
            (acc, j)
        },
        None => (acc, j),
    }
}

/// One entry of a `vcp` list: a feature code and, in brackets after it, the
/// values it allows.
pub struct VcpEntryView {
    pub code: u8,
    pub values: Option<Seq<u8>>,
}

pub open spec fn vcp_list(s: Seq<u8>, i: int, acc: Seq<VcpEntryView>) -> Option<Seq<VcpEntryView>>
    decreases s.len() - i,
{
    let j = skip_spaces(s, i);
    if j >= s.len() {
        Some(acc)
    } else {
        match hex_pair(s, j) {
            None => None,
            Some(code) => {
                let k = skip_spaces(s, j + 2);
                if k < s.len() && s[k] == 0x28 {
                    let (vals, m) = hex_list(s, k + 1, Seq::empty());
                    if m < s.len() && s[m] == 0x29 && i < m + 1 {
                        vcp_list(s, m + 1, acc.push(VcpEntryView { code, values: Some(vals) }))
                    } else {
                        None
                    }
                } else if i < k <= s.len() {
                    vcp_list(s, k, acc.push(VcpEntryView { code, values: None }))
                } else {
                    None
                }
            },
        }
    }
}

/// `N.M` with decimal numbers of at most 255, or four digits `NNMM`.
pub open spec fn version_of(v: Seq<u8>) -> Option<(u8, u8)> {
    let d = digit_end(v, 0);
    if 0 < d < v.len() && v[d] == 0x2e {
        let e = digit_end(v, d + 1);
        if e == v.len() && e > d + 1 && decimal_value(v, 0, d) <= 255 && decimal_value(v, d + 1, e)
            <= 255 {
            Some((decimal_value(v, 0, d) as u8, decimal_value(v, d + 1, e) as u8))
        } else {
            None
        }
    } else if v.len() == 4 && d == 4 {
        Some((decimal_value(v, 0, 2) as u8, decimal_value(v, 2, 4) as u8))
    } else {
        None
    }
}

/// A single decimal digit.
pub open spec fn whql_of(v: Seq<u8>) -> Option<u8> {
    if v.len() == 1 && is_digit(v[0]) {
        Some((v[0] - 0x30) as u8)
    } else {
        None
    }
}

/// The hex bytes of a `cmds` value, which must consist of nothing else.
pub open spec fn commands_of(v: Seq<u8>) -> Option<Seq<u8>> {
    let (vals, m) = hex_list(v, 0, Seq::empty());
    if m == v.len() {
        Some(vals)
    } else {
        None
    }
}

/// What the capability string says, entry by entry, as plain values: the raw
/// text of the protocol, type and model, the command bytes, the version, the
/// VCP entries and the entries with other tags.
pub struct CapabilitiesView {
    pub protocol: Option<Seq<u8>>,
    pub ty: Option<Seq<u8>>,
    pub model: Option<Seq<u8>>,
    pub commands: Seq<u8>,
    pub ms_whql: Option<u8>,
    pub mccs_version: Option<(u8, u8)>,
    pub vcp_features: Seq<VcpEntryView>,
    pub unknown_tags: Seq<EntryView>,
}

pub open spec fn empty_capabilities() -> CapabilitiesView {
    CapabilitiesView {
        protocol: None,
        ty: None,
        model: None,
        commands: Seq::empty(),
        ms_whql: None,
        mccs_version: None,
        vcp_features: Seq::empty(),
        unknown_tags: Seq::empty(),
    }
}

/// The effect of one entry. A later `prot`, `type`, `model`, `cmds`,
/// `mswhql` or `mccs_ver` entry replaces an earlier one; `vcp` entries and
/// unknown entries add up. A value that does not have its tag's form fails
/// the whole string.
pub open spec fn apply_entry(c: CapabilitiesView, e: EntryView) -> Option<CapabilitiesView> {
    if e.binary {
        Some(CapabilitiesView { unknown_tags: c.unknown_tags.push(e), ..c })
    } else {
        match tag_kind_of(e.tag) {
            TagKind::Prot => if valid_utf8(e.value) {
                Some(CapabilitiesView { protocol: Some(e.value), ..c })
            } else {
                None
            },
            TagKind::Type => if valid_utf8(e.value) {
                Some(CapabilitiesView { ty: Some(e.value), ..c })
            } else {
                None
            },
            TagKind::Model => if valid_utf8(e.value) {
                Some(CapabilitiesView { model: Some(e.value), ..c })
            } else {
                None
            },
            TagKind::Cmds => match commands_of(e.value) {
                Some(cmds) => Some(CapabilitiesView { commands: cmds, ..c }),
                None => None,
            },
            TagKind::Whql => match whql_of(e.value) {
                Some(w) => Some(CapabilitiesView { ms_whql: Some(w), ..c }),
                None => None,
            },
            TagKind::MccsVer => match version_of(e.value) {
                Some(v) => Some(CapabilitiesView { mccs_version: Some(v), ..c }),
                None => None,
            },
            TagKind::Vcp => match vcp_list(e.value, 0, Seq::empty()) {
                Some(l) => Some(CapabilitiesView { vcp_features: c.vcp_features + l, ..c }),
                None => None,
            },
            TagKind::Other => Some(CapabilitiesView { unknown_tags: c.unknown_tags.push(e), ..c }),
        }
    }
}

pub open spec fn apply_entries(c: CapabilitiesView, es: Seq<EntryView>) -> Option<CapabilitiesView>
    decreases es.len(),
{
    if es.len() == 0 {
        Some(c)
    } else {
        match apply_entries(c, es.drop_last()) {
            Some(c2) => apply_entry(c2, es.last()),
            None => None,
        }
    }
}

/// What a capability string says, if it parses.
pub open spec fn capabilities_of(s: Seq<u8>) -> Option<CapabilitiesView> {
    match capability_entries(s) {
        Some(es) => apply_entries(empty_capabilities(), es),
        None => None,
    }
}

pub open spec fn word_monitor() -> Seq<u8> {
    seq![0x6du8, 0x6fu8, 0x6eu8, 0x69u8, 0x74u8, 0x6fu8, 0x72u8]
}

pub open spec fn word_display() -> Seq<u8> {
    seq![0x64u8, 0x69u8, 0x73u8, 0x70u8, 0x6cu8, 0x61u8, 0x79u8]
}

pub open spec fn ascii_lower(b: u8) -> u8 {
    if 0x41 <= b <= 0x5a {
        (b + 0x20) as u8
    } else {
        b
    }
}

/// The text, compared without regard to ASCII case, is the lower case word.
pub open spec fn eq_ignore_case(t: Seq<u8>, w: Seq<u8>) -> bool {
    t.len() == w.len() && forall|k: int| 0 <= k < t.len() ==> ascii_lower(t[k]) == w[k]
}

pub open spec fn protocol_matches(p: Protocol, t: Seq<u8>) -> bool {
    if t == word_monitor() {
        p is Monitor
    } else if t == word_display() {
        p is Display
    } else {
        p matches Protocol::Unknown(s) && s@ == decode_utf8(t)
    }
}

pub open spec fn technology_matches(d: DisplayTechnology, t: Seq<u8>) -> bool {
    if eq_ignore_case(t, seq![0x63u8, 0x72u8, 0x74u8]) {
        d is Crt
    } else if eq_ignore_case(t, seq![0x6cu8, 0x63u8, 0x64u8]) {
        d is Lcd
    } else if eq_ignore_case(t, seq![0x6cu8, 0x65u8, 0x64u8]) {
        d is Led
    } else {
        d matches DisplayTechnology::Unknown(s) && s@ == decode_utf8(t)
    }
}

/// The capability holds, in order and with their types, the values listed
/// with its code; a capability kind without values holds none.
pub open spec fn capability_values_are(c: VcpCapability, vs: Seq<u8>) -> bool {
    match c {
        VcpCapability::Language(d) => d@ == vs.map_values(|x: u8| osd_language_of(x as u32)),
        VcpCapability::DisplayInput(d) => d@ == vs.map_values(|x: u8| input_source_of(x as u32)),
        VcpCapability::UnimplementedDiscrete(_, d) => d@ == vs.map_values(
            |x: u8| AnonymousVcpValue(x as u32),
        ),
        _ => true,
    }
}

/// The capability built for a `vcp` entry: its kind comes from the feature
/// code, a code without a typed capability is unimplemented (discrete when
/// values were listed), and the listed values are kept, typed, where the kind
/// holds values.
pub open spec fn capability_matches(c: VcpCapability, e: VcpEntryView) -> bool {
    let code = feature_code_of(e.code);
    let kind = match capability_kind_of(code) {
        Ok(k) => k,
        Err(_) => if e.values is Some {
            VcpCapabilityKind::UnimplementedDiscrete
        } else {
            VcpCapabilityKind::Unimplemented
        },
    };
    &&& c.code() == code
    &&& c.kind() == kind
    &&& capability_values_are(
        c,
        match e.values {
            Some(vs) => vs,
            None => Seq::empty(),
        },
    )
}

pub open spec fn unknown_tag_matches(u: UnknownTag, e: EntryView) -> bool {
    &&& u.name@ == decode_utf8(e.tag)
    &&& if e.binary {
        u.data matches UnknownData::Binary(d) && d@ == e.value
    } else if valid_utf8(e.value) {
        u.data matches UnknownData::String(s) && s@ == decode_utf8(e.value)
    } else {
        u.data matches UnknownData::StringBytes(b) && b@ == e.value
    }
}

/// The parsed capabilities hold what the view says.
pub open spec fn capabilities_match(c: Capabilities, v: CapabilitiesView) -> bool {
    &&& match (c.protocol, v.protocol) {
        (None, None) => true,
        (Some(p), Some(t)) => protocol_matches(p, t),
        _ => false,
    }
    &&& match (c.ty, v.ty) {
        (None, None) => true,
        (Some(d), Some(t)) => technology_matches(d, t),
        _ => false,
    }
    &&& match (c.model, v.model) {
        (None, None) => true,
        (Some(m), Some(t)) => m@ == decode_utf8(t),
        _ => false,
    }
    &&& c.commands@ == v.commands.map_values(|b: u8| opcode_of(b))
    &&& c.ms_whql == v.ms_whql
    &&& match (c.mccs_version, v.mccs_version) {
        (None, None) => true,
        (Some(ver), Some(p)) => ver.major == p.0 && ver.minor == p.1,
        _ => false,
    }
    &&& c.vcp_features@.len() == v.vcp_features.len()
    &&& forall|k: int|
        0 <= k < c.vcp_features@.len() ==> capability_matches(c.vcp_features@[k], v.vcp_features[k])
    &&& c.unknown_tags@.len() == v.unknown_tags.len()
    &&& forall|k: int|
        0 <= k < c.unknown_tags@.len() ==> unknown_tag_matches(c.unknown_tags@[k], v.unknown_tags[k])
}

/// Parsed display capabilities string.
#[derive(Debug, Clone)]
pub struct Capabilities {
    /// It's not very clear what this field is for.
    pub protocol: Option<Protocol>,
    /// The display panel technology.
    pub ty: Option<DisplayTechnology>,
    /// The monitor model identifier.
    pub model: Option<String>,
    /// List of supported DDC/CI commands.
    pub commands: Vec<DdcOpcode>,
    /// A value of `1` seems to indicate that the monitor has passed Microsoft's
    /// Windows Hardware Quality Labs testing.
    pub ms_whql: Option<u8>,
    /// Monitor Command Control Set version code.
    pub mccs_version: Option<Version>,
    /// Virtual Control Panel feature code descriptors.
    pub vcp_features: Vec<VcpCapability>,
    /// Additional unrecognized data from the capability string.
    pub unknown_tags: Vec<UnknownTag>,
}


fn hex_digit(b: u8) -> (r: Option<u8>)
    ensures
        r == hex_digit_value(b),
{
    if 0x30 <= b && b <= 0x39 {
        Some(b - 0x30)
    } else if 0x61 <= b && b <= 0x66 {
        Some(b - 0x57)
    } else if 0x41 <= b && b <= 0x46 {
        Some(b - 0x37)
    } else {
        None
    }
}

fn hex_pair_at(s: &[u8], i: usize) -> (r: Option<u8>)
    requires
        i <= s@.len(),
    ensures
        r == hex_pair(s@, i as int),
{
    if s.len() - i < 2 {
        return None;
    }
    match (hex_digit(s[i]), hex_digit(s[i + 1])) {
        (Some(h), Some(l)) => Some(h * 16 + l),
        _ => None,
    }
}

fn hex_list_at(s: &[u8], i: usize) -> (r: (Vec<u8>, usize))
    requires
        i <= s@.len(),
    ensures
        (r.0@, r.1 as int) == hex_list(s@, i as int, Seq::empty()),
        i <= r.1 <= s@.len(),
{
    let mut acc: Vec<u8> = Vec::new();
    let mut p = i;
    loop
        invariant
            i <= p <= s@.len(),
            hex_list(s@, i as int, Seq::empty()) == hex_list(s@, p as int, acc@),
        decreases s@.len() - p,
    {
        let j = skip_spaces_at(s, p);
        match hex_pair_at(s, j) {
            Some(x) => {
                assert(j + 2 <= s@.len());
                let n = s.len();
                acc.push(x);
                p = j + 2;
            },
            None => {
                return (acc, j);
            },
        }
    }
}

/// The capability for a feature code and the values listed with it.
fn capability_for(code: u8, values: Option<Vec<u8>>) -> (r: VcpCapability)
    ensures
        capability_matches(
            r,
            VcpEntryView {
                code,
                values: match values {
                    Some(v) => Some(v@),
                    None => None,
                },
            },
        ),
{
    let feature = VcpFeatureCode::from_byte(code);
    let mut cap = match VcpCapability::from_feature_code(feature) {
        Ok(x) => x,
        Err(_) => if values.is_some() {
            VcpCapability::UnimplementedDiscrete(feature, DiscreteValues::new())
        } else {
            VcpCapability::Unimplemented(feature)
        },
    };
    let ghost kind = cap.kind();
    proof {
        assert(cap.value_words().len() == 0);
        match &cap {
            VcpCapability::Language(d) => {
                assert(d@ =~= Seq::<u8>::empty().map_values(|x: u8| osd_language_of(x as u32)));
            },
            VcpCapability::DisplayInput(d) => {
                assert(d@ =~= Seq::<u8>::empty().map_values(|x: u8| input_source_of(x as u32)));
            },
            VcpCapability::UnimplementedDiscrete(_, d) => {
                assert(d@ =~= Seq::<u8>::empty().map_values(|x: u8| AnonymousVcpValue(x as u32)));
            },
            _ => {},
        }
    }
    match values {
        Some(vals) => {
            let mut k: usize = 0;
            assert(vals@.take(0) =~= Seq::<u8>::empty());
            while k < vals.len()
                invariant
                    k <= vals@.len(),
                    cap.kind() == kind,
                    cap.code() == feature,
                    capability_values_are(cap, vals@.take(k as int)),
                decreases vals@.len() - k,
            {
                let x = vals[k];
                let ghost before = cap;
                cap.add_discrete_value(x as u32);
                proof {
                    assert(vals@.take(k + 1) =~= vals@.take(k as int).push(x));
                    match before {
                        VcpCapability::Language(d) => {
                            assert(vals@.take(k as int).push(x).map_values(
                                |y: u8| osd_language_of(y as u32),
                            ) =~= vals@.take(k as int).map_values(|y: u8| osd_language_of(y as u32)).push(
                                osd_language_of(x as u32),
                            ));
                        },
                        VcpCapability::DisplayInput(d) => {
                            assert(vals@.take(k as int).push(x).map_values(
                                |y: u8| input_source_of(y as u32),
                            ) =~= vals@.take(k as int).map_values(|y: u8| input_source_of(y as u32)).push(
                                input_source_of(x as u32),
                            ));
                        },
                        VcpCapability::UnimplementedDiscrete(_, d) => {
                            assert(vals@.take(k as int).push(x).map_values(
                                |y: u8| AnonymousVcpValue(y as u32),
                            ) =~= vals@.take(k as int).map_values(|y: u8| AnonymousVcpValue(y as u32)).push(
                                AnonymousVcpValue(x as u32),
                            ));
                        },
                        _ => {},
                    }
                }
                k += 1;
            }
            assert(vals@.take(vals@.len() as int) =~= vals@);
        },
        None => {},
    }
    cap
}

pub open spec fn capabilities_list_match(cs: Seq<VcpCapability>, l: Seq<VcpEntryView>) -> bool {
    cs.len() == l.len() && forall|k: int| 0 <= k < cs.len() ==> capability_matches(cs[k], l[k])
}

fn vcp_list_exec(s: &[u8]) -> (r: Option<Vec<VcpCapability>>)
    ensures
        match vcp_list(s@, 0, Seq::empty()) {
            Some(l) => r matches Some(cs) && capabilities_list_match(cs@, l),
            None => r is None,
        },
{
    let mut acc: Vec<VcpCapability> = Vec::new();
    let ghost l: Seq<VcpEntryView> = Seq::empty();
    let mut p: usize = 0;
    loop
        invariant
            p <= s@.len(),
            capabilities_list_match(acc@, l),
            vcp_list(s@, 0, Seq::empty()) == vcp_list(s@, p as int, l),
        decreases s@.len() - p,
    {
        let j = skip_spaces_at(s, p);
        if j >= s.len() {
            return Some(acc);
        }
        let code = match hex_pair_at(s, j) {
            Some(c) => c,
            None => {
                return None;
            },
        };
        let k = skip_spaces_at(s, j + 2);
        if k < s.len() && s[k] == 0x28 {
            let (vals, m) = hex_list_at(s, k + 1);
            if m < s.len() && s[m] == 0x29 {
                let ghost e = VcpEntryView { code, values: Some(vals@) };
                let cap = capability_for(code, Some(vals));
                acc.push(cap);
                proof {
                    l = l.push(e);
                }
                p = m + 1;
            } else {
                return None;
            }
        } else {
            let ghost e = VcpEntryView { code, values: None };
            let cap = capability_for(code, None);
            acc.push(cap);
            proof {
                l = l.push(e);
            }
            p = k;
        }
    }
}

fn version_exec(v: &[u8]) -> (r: Option<(u8, u8)>)
    ensures
        r == version_of(v@),
{
    let d = digit_end_at(v, 0);
    if 0 < d && d < v.len() && v[d] == 0x2e {
        let e = digit_end_at(v, d + 1);
        if e == v.len() && e > d + 1 {
            match (decimal_at_most(v, 0, d, 255), decimal_at_most(v, d + 1, e, 255)) {
                (Some(a), Some(b)) => Some((a as u8, b as u8)),
                _ => None,
            }
        } else {
            None
        }
    } else if v.len() == 4 && d == 4 {
        let a = decimal_at_most(v, 0, 2, 255);
        let b = decimal_at_most(v, 2, 4, 255);
        proof {
            assert(is_digit(v@[0]) && is_digit(v@[1]) && is_digit(v@[2]) && is_digit(v@[3]));
            assert(decimal_value(v@, 0, 0) == 0);
            assert(decimal_value(v@, 2, 2) == 0);
            assert(decimal_value(v@, 0, 1) <= 9);
            assert(decimal_value(v@, 0, 2) <= 99);
            assert(decimal_value(v@, 2, 3) <= 9);
            assert(decimal_value(v@, 2, 4) <= 99);
        }
        match (a, b) {
            (Some(a), Some(b)) => Some((a as u8, b as u8)),
            _ => None,
        }
    } else {
        None
    }
}

fn whql_exec(v: &[u8]) -> (r: Option<u8>)
    ensures
        r == whql_of(v@),
{
    if v.len() == 1 && 0x30 <= v[0] && v[0] <= 0x39 {
        Some(v[0] - 0x30)
    } else {
        None
    }
}

fn commands_exec(v: &[u8]) -> (r: Option<Vec<DdcOpcode>>)
    ensures
        match commands_of(v@) {
            Some(cmds) => r matches Some(ops) && ops@ == cmds.map_values(|b: u8| opcode_of(b)),
            None => r is None,
        },
{
    let (vals, m) = hex_list_at(v, 0);
    if m != v.len() {
        return None;
    }
    let mut ops: Vec<DdcOpcode> = Vec::new();
    let mut k: usize = 0;
    while k < vals.len()
        invariant
            k <= vals@.len(),
            ops@ == vals@.take(k as int).map_values(|b: u8| opcode_of(b)),
        decreases vals@.len() - k,
    {
        ops.push(DdcOpcode::from_byte(vals[k]));
        k += 1;
        assert(ops@ =~= vals@.take(k as int).map_values(|b: u8| opcode_of(b)));
    }
    assert(vals@.take(vals@.len() as int) =~= vals@);
    Some(ops)
}

fn protocol_exec(t: &[u8]) -> (r: Option<Protocol>)
    ensures
        r is Some <==> valid_utf8(t@),
        r matches Some(p) ==> protocol_matches(p, t@),
{
    let text = match string_from_utf8(t) {
        Some(x) => x,
        None => {
            return None;
        },
    };
    if t.len() == 7 && t[0] == 0x6d && t[1] == 0x6f && t[2] == 0x6e && t[3] == 0x69 && t[4] == 0x74
        && t[5] == 0x6f && t[6] == 0x72 {
        assert(t@ =~= word_monitor());
        Some(Protocol::Monitor)
    } else if t.len() == 7 && t[0] == 0x64 && t[1] == 0x69 && t[2] == 0x73 && t[3] == 0x70 && t[4]
        == 0x6c && t[5] == 0x61 && t[6] == 0x79 {
        assert(t@ =~= word_display());
        Some(Protocol::Display)
    } else {
        Some(Protocol::Unknown(text))
    }
}

fn lower(b: u8) -> (r: u8)
    ensures
        r == ascii_lower(b),
{
    if 0x41 <= b && b <= 0x5a {
        b + 0x20
    } else {
        b
    }
}

fn eq_ignore_case3(t: &[u8], a: u8, b: u8, c: u8) -> (r: bool)
    ensures
        r == eq_ignore_case(t@, seq![a, b, c]),
{
    t.len() == 3 && lower(t[0]) == a && lower(t[1]) == b && lower(t[2]) == c
}

fn technology_exec(t: &[u8]) -> (r: Option<DisplayTechnology>)
    ensures
        r is Some <==> valid_utf8(t@),
        r matches Some(d) ==> technology_matches(d, t@),
{
    let text = match string_from_utf8(t) {
        Some(x) => x,
        None => {
            return None;
        },
    };
    if eq_ignore_case3(t, 0x63, 0x72, 0x74) {
        Some(DisplayTechnology::Crt)
    } else if eq_ignore_case3(t, 0x6c, 0x63, 0x64) {
        Some(DisplayTechnology::Lcd)
    } else if eq_ignore_case3(t, 0x6c, 0x65, 0x64) {
        Some(DisplayTechnology::Led)
    } else {
        Some(DisplayTechnology::Unknown(text))
    }
}

/// Applies one entry to the capabilities; false where its value does not
/// have its tag's form.
fn apply_raw(
    caps: &mut Capabilities,
    raw: RawEntry,
    Ghost(cv): Ghost<CapabilitiesView>,
    Ghost(e): Ghost<EntryView>,
) -> (r: bool)
    requires
        capabilities_match(*old(caps), cv),
        raw_matches(raw, e),
    ensures
        match apply_entry(cv, e) {
            Some(cv2) => r && capabilities_match(*final(caps), cv2),
            None => !r,
        },
{
    let kind = if raw.binary {
        TagKind::Other
    } else {
        tag_kind(raw.tag.as_slice())
    };
    match kind {
        TagKind::Prot => match protocol_exec(raw.value.as_slice()) {
            Some(p) => {
                caps.protocol = Some(p);
                true
            },
            None => false,
        },
        TagKind::Type => match technology_exec(raw.value.as_slice()) {
            Some(d) => {
                caps.ty = Some(d);
                true
            },
            None => false,
        },
        TagKind::Model => match string_from_utf8(raw.value.as_slice()) {
            Some(m) => {
                caps.model = Some(m);
                true
            },
            None => false,
        },
        TagKind::Cmds => match commands_exec(raw.value.as_slice()) {
            Some(ops) => {
                caps.commands = ops;
                true
            },
            None => false,
        },
        TagKind::Whql => match whql_exec(raw.value.as_slice()) {
            Some(w) => {
                caps.ms_whql = Some(w);
                true
            },
            None => false,
        },
        TagKind::MccsVer => match version_exec(raw.value.as_slice()) {
            Some((major, minor)) => {
                caps.mccs_version = Some(Version::new(major, minor));
                true
            },
            None => false,
        },
        TagKind::Vcp => match vcp_list_exec(raw.value.as_slice()) {
            Some(list) => {
                let ghost l = vcp_list(e.value, 0, Seq::empty())->Some_0;
                let ghost before = caps.vcp_features@;
                let ghost lv = list@;
                let mut list = list;
                caps.vcp_features.append(&mut list);
                assert forall|k: int| 0 <= k < caps.vcp_features@.len() implies capability_matches(
                    caps.vcp_features@[k],
                    (cv.vcp_features + l)[k],
                ) by {
                    if k >= before.len() {
                        assert(caps.vcp_features@[k] == lv[k - before.len()]);
                    }
                }
                true
            },
            None => false,
        },
        TagKind::Other => {
            let u = UnknownTag::from_value(raw.into_value());
            caps.unknown_tags.push(u);
            true
        },
    }
}

proof fn lemma_apply_fails_on(c: CapabilitiesView, es: Seq<EntryView>, k: int)
    requires
        0 <= k <= es.len(),
        apply_entries(c, es.take(k)) is None,
    ensures
        apply_entries(c, es) is None,
    decreases es.len() - k,
{
    if k < es.len() {
        assert(es.take(k + 1).drop_last() =~= es.take(k));
        lemma_apply_fails_on(c, es, k + 1);
    } else {
        assert(es.take(k) =~= es);
    }
}

/// Parses a MCCS capability string.
pub fn parse_capabilities(capability_string: &[u8]) -> (r: Result<Capabilities, CapabilityParseError>)
    ensures
        match capabilities_of(capability_string@) {
            Some(v) => r matches Ok(c) && capabilities_match(c, v),
            None => r == Err::<Capabilities, CapabilityParseError>(CapabilityParseError::InvalidData),
        },
{
    let raws = match capability_entries_exec(capability_string) {
        Some(x) => x,
        None => {
            return Err(CapabilityParseError::InvalidData);
        },
    };
    let ghost es = capability_entries(capability_string@)->Some_0;
    let ghost all = raws@;
    let mut caps = Capabilities {
        protocol: None,
        ty: None,
        model: None,
        commands: Vec::new(),
        ms_whql: None,
        mccs_version: None,
        vcp_features: Vec::new(),
        unknown_tags: Vec::new(),
    };
    let ghost cv = empty_capabilities();
    assert(caps.commands@ =~= cv.commands.map_values(|b: u8| opcode_of(b)));
    assert(es.take(0) =~= Seq::<EntryView>::empty());
    let total = raws.len();
    let mut rest = raws;
    let mut done: usize = 0;
    while rest.len() > 0
        invariant
            raws_match(all, es),
            capability_entries(capability_string@) == Some(es),
            all.len() == total,
            done + rest@.len() == all.len(),
            rest@ == all.subrange(done as int, all.len() as int),
            apply_entries(empty_capabilities(), es.take(done as int)) == Some(cv),
            capabilities_match(caps, cv),
        decreases rest@.len(),
    {
        let raw = rest.remove(0);
        assert(raw == all[done as int]);
        let ghost e = es[done as int];
        let ok = apply_raw(&mut caps, raw, Ghost(cv), Ghost(e));
        assert(es.take(done + 1).drop_last() =~= es.take(done as int));
        assert(es.take(done + 1).last() == e);
        if !ok {
            proof {
                assert(apply_entry(cv, e) is None);
                assert(apply_entries(empty_capabilities(), es.take(done + 1)) is None);
                lemma_apply_fails_on(empty_capabilities(), es, done + 1);
                assert(capability_entries(capability_string@) == Some(es));
            }
            return Err(CapabilityParseError::InvalidData);
        }
        proof {
            cv = apply_entry(cv, e)->Some_0;
        }
        done += 1;
        assert(rest@ =~= all.subrange(done as int, all.len() as int));
    }
    assert(es.take(done as int) =~= es);
    Ok(caps)
}


impl Protocol {
    /// The protocol class that a `prot` value names.
    pub fn from_text(s: &str) -> (r: Protocol)
        ensures
            protocol_matches(r, s.spec_bytes()),
    {
        proof {
            vstd::utf8::encode_utf8_valid_utf8(s@);
        }
        match protocol_exec(s.as_bytes()) {
            Some(p) => p,
            None => {
                assert(false);
                Protocol::Monitor
            },
        }
    }

    /// The text of the protocol class, as a capability string writes it.
    pub fn to_text(&self) -> (r: String)
        ensures
            r@ == match self {
                Protocol::Monitor => "monitor"@,
                Protocol::Display => "display"@,
                Protocol::Unknown(s) => s@,
            },
    {
        match self {
            Protocol::Monitor => String::from_str("monitor"),
            Protocol::Display => String::from_str("display"),
            Protocol::Unknown(s) => s.clone(),
        }
    }
}

impl DisplayTechnology {
    /// The display technology that a `type` value names, in any ASCII case.
    pub fn from_text(s: &str) -> (r: DisplayTechnology)
        ensures
            technology_matches(r, s.spec_bytes()),
    {
        proof {
            vstd::utf8::encode_utf8_valid_utf8(s@);
        }
        match technology_exec(s.as_bytes()) {
            Some(d) => d,
            None => {
                assert(false);
                DisplayTechnology::Crt
            },
        }
    }

    /// The text of the technology, lower case for the known ones.
    pub fn to_text(&self) -> (r: String)
        ensures
            r@ == match self {
                DisplayTechnology::Crt => "crt"@,
                DisplayTechnology::Lcd => "lcd"@,
                DisplayTechnology::Led => "led"@,
                DisplayTechnology::Unknown(s) => s@,
            },
    {
        match self {
            DisplayTechnology::Crt => String::from_str("crt"),
            DisplayTechnology::Lcd => String::from_str("lcd"),
            DisplayTechnology::Led => String::from_str("led"),
            DisplayTechnology::Unknown(s) => s.clone(),
        }
    }
}


impl Value {
    /// The entry that an unknown tag was read from: text goes back to its
    /// UTF-8 bytes.
    pub fn from_unknown_tag(t: &UnknownTag) -> (r: Value)
        ensures
            match t.data {
                UnknownData::String(text) => r matches Value::String { tag, value } && tag@ == t.name@
                    && value@ == vstd::utf8::encode_utf8(text@),
                UnknownData::StringBytes(b) => r matches Value::String { tag, value } && tag@
                    == t.name@ && value@ == b@,
                UnknownData::Binary(b) => r matches Value::Binary { tag, data } && tag@ == t.name@
                    && data@ == b@,
            },
    {
        let tag = t.name.clone();
        match &t.data {
            UnknownData::String(text) => Value::String {
                tag,
                value: vstd::slice::slice_to_vec(text.as_str().as_bytes()),
            },
            UnknownData::StringBytes(b) => Value::String {
                tag,
                value: vstd::slice::slice_to_vec(b.as_slice()),
            },
            UnknownData::Binary(b) => Value::Binary { tag, data: vstd::slice::slice_to_vec(b.as_slice()) },
        }
    }
}


impl UnknownTag {
    /// The unknown tag for an entry: text that is UTF-8 becomes a string,
    /// other text stays bytes, binary data stays binary.
    pub fn from_value(v: Value) -> (r: UnknownTag)
        ensures
            forall|e: EntryView| value_matches(v, e) ==> unknown_tag_matches(r, e),
    {
        match v {
            Value::String { tag, value } => {
                let data = match string_from_utf8(value.as_slice()) {
                    Some(text) => UnknownData::String(text),
                    None => UnknownData::StringBytes(value),
                };
                UnknownTag { name: tag, data }
            },
            Value::Binary { tag, data } => UnknownTag { name: tag, data: UnknownData::Binary(data) },
        }
    }
}

} // verus!
