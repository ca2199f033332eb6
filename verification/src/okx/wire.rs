//! OKX trade wire grammar.
//!
//! One inbound wire unit is a JSON-shaped envelope carrying a routing
//! header (channel name and instrument identifier) and a payload array of
//! trade records:
//!
//! `{"arg":{"channel":C,"instId":I},"data":[R1,...,Rn]}` with each record
//! `Rk` an object with string members `tradeId`, `px`, `sz`, `side`, `ts`.
//!
//! As the venue's feed demands, object members may come in any order,
//! insignificant whitespace is tolerated, and unknown members (such as a
//! record-level instrument field) are skipped. A known key that appears
//! twice rejects the unit. Accepted member values are quoted strings
//! without `"` or `\` (no escape sequences) and unquoted primitive tokens
//! (numbers, booleans, null); unknown members holding nested objects or
//! arrays are not accepted. The spec-level parser below is the meaning of
//! a wire unit; the executable parser is proved to agree with it exactly.

use vstd::prelude::*;
use crate::decode::eq_str;

verus! {

/// Raw trade record exactly as transmitted: every field still text.
#[derive(Debug)]
pub struct OkxRawTrade {
    pub id: String,
    pub px: String,
    pub sz: String,
    pub side: String,
    pub ts: String,
}

/// Spec-level image of one raw trade record.
#[verifier::ext_equal]
pub struct OkxRawTradeView {
    pub id: Seq<char>,
    pub px: Seq<char>,
    pub sz: Seq<char>,
    pub side: Seq<char>,
    pub ts: Seq<char>,
}

impl View for OkxRawTrade {
    type V = OkxRawTradeView;

    open spec fn view(&self) -> OkxRawTradeView {
        OkxRawTradeView {
            id: self.id@,
            px: self.px@,
            sz: self.sz@,
            side: self.side@,
            ts: self.ts@,
        }
    }
}

impl DeepView for OkxRawTrade {
    type V = OkxRawTradeView;

    open spec fn deep_view(&self) -> OkxRawTradeView {
        self.view()
    }
}

impl Clone for OkxRawTrade {
    fn clone(&self) -> (r: Self)
        ensures
            r == *self,
    {
        OkxRawTrade {
            id: self.id.clone(),
            px: self.px.clone(),
            sz: self.sz.clone(),
            side: self.side.clone(),
            ts: self.ts.clone(),
        }
    }
}

/// Spec-level image of one whole trade wire unit.
#[verifier::ext_equal]
pub struct OkxTradesView {
    pub channel: Seq<char>,
    pub instrument: Seq<char>,
    pub data: Seq<OkxRawTradeView>,
}

/// Record fields gathered so far while reading a record's members.
pub struct RecordFieldsView {
    pub id: Option<Seq<char>>,
    pub px: Option<Seq<char>>,
    pub sz: Option<Seq<char>>,
    pub side: Option<Seq<char>>,
    pub ts: Option<Seq<char>>,
}

/// JSON insignificant whitespace.
pub open spec fn is_ws(c: char) -> bool {
    c == ' ' || c == '\t' || c == '\n' || c == '\r'
}

/// First position at or after `i` holding no whitespace.
pub open spec fn skip_ws(s: Seq<char>, i: int) -> int
    decreases s.len() - i when 0 <= i <= s.len()
{
    if i < s.len() && is_ws(s[i]) {
        skip_ws(s, i + 1)
    } else {
        i
    }
}

/// Position just past the closing quote of the string opened before `i`,
/// if every character up to it is an admissible string character.
pub open spec fn scan_quote(s: Seq<char>, i: int) -> Option<int>
    decreases s.len() - i when 0 <= i <= s.len()
{
    if i >= s.len() {
        None
    } else if s[i] == '"' {
        Some(i)
    } else if s[i] == '\\' {
        None
    } else {
        scan_quote(s, i + 1)
    }
}

/// A quoted string value at `i`: its content and the position after it.
pub open spec fn spec_parse_string(s: Seq<char>, i: int) -> Option<(Seq<char>, int)> {
    if 0 <= i < s.len() && s[i] == '"' {
        match scan_quote(s, i + 1) {
            Some(j) => Some((s.subrange(i + 1, j), j + 1)),
            None => None,
        }
    } else {
        None
    }
}

/// A character admissible in an unquoted primitive token (a number,
/// boolean or null): anything but whitespace and structural characters.
pub open spec fn is_prim_char(c: char) -> bool {
    !is_ws(c) && c != ',' && c != '}' && c != ']' && c != '"' && c != ':' && c != '{' && c
        != '['
}

/// First position at or after `i` holding no primitive-token character.
pub open spec fn scan_prim(s: Seq<char>, i: int) -> int
    decreases s.len() - i when 0 <= i <= s.len()
{
    if i < s.len() && is_prim_char(s[i]) {
        scan_prim(s, i + 1)
    } else {
        i
    }
}

/// Pass over one member value that is not interpreted: a quoted string
/// or a nonempty primitive token, after any whitespace.
pub open spec fn spec_skip_value(s: Seq<char>, i: int) -> Option<int> {
    if 0 <= i <= s.len() {
        let j = skip_ws(s, i);
        if i <= j <= s.len() {
            if j < s.len() && s[j] == '"' {
                match spec_parse_string(s, j) {
                    Some((_c, e)) => Some(e),
                    None => None,
                }
            } else {
                let e = scan_prim(s, j);
                if j < e <= s.len() {
                    Some(e)
                } else {
                    None
                }
            }
        } else {
            None
        }
    } else {
        None
    }
}

/// A member key: whitespace, a quoted name, whitespace, and `:`.
pub open spec fn spec_parse_key(s: Seq<char>, i: int) -> Option<(Seq<char>, int)> {
    if 0 <= i <= s.len() {
        let j = skip_ws(s, i);
        if i <= j <= s.len() {
            match spec_parse_string(s, j) {
                Some((k, a)) => {
                    let b = skip_ws(s, a);
                    if a <= b && b < s.len() && s[b] == ':' {
                        Some((k, b + 1))
                    } else {
                        None
                    }
                },
                None => None,
            }
        } else {
            None
        }
    } else {
        None
    }
}

/// A member value that must be a quoted string, after any whitespace.
pub open spec fn spec_parse_string_value(s: Seq<char>, i: int) -> Option<(Seq<char>, int)> {
    if 0 <= i <= s.len() {
        let j = skip_ws(s, i);
        if i <= j <= s.len() {
            spec_parse_string(s, j)
        } else {
            None
        }
    } else {
        None
    }
}

/// The members of the routing-header object, in any order: `channel` and
/// `instId` must each appear exactly once as strings; unknown members
/// are skipped.
pub open spec fn spec_parse_arg_members(
    s: Seq<char>,
    i: int,
    ch: Option<Seq<char>>,
    inst: Option<Seq<char>>,
) -> Option<((Seq<char>, Seq<char>), int)>
    decreases s.len() - i when 0 <= i <= s.len()
{
    match spec_parse_key(s, i) {
        None => None,
        Some((key, a)) => {
            let step = if key == "channel"@ {
                if ch is Some {
                    None
                } else {
                    match spec_parse_string_value(s, a) {
                        Some((v, b)) => Some((Some(v), inst, b)),
                        None => None,
                    }
                }
            } else if key == "instId"@ {
                if inst is Some {
                    None
                } else {
                    match spec_parse_string_value(s, a) {
                        Some((v, b)) => Some((ch, Some(v), b)),
                        None => None,
                    }
                }
            } else {
                match spec_skip_value(s, a) {
                    Some(b) => Some((ch, inst, b)),
                    None => None,
                }
            };
            match step {
                None => None,
                Some((ch2, inst2, b)) => {
                    let c = skip_ws(s, b);
                    if i < b && b <= c && c < s.len() {
                        if s[c] == ',' {
                            spec_parse_arg_members(s, c + 1, ch2, inst2)
                        } else if s[c] == '}' {
                            match (ch2, inst2) {
                                (Some(cv), Some(iv)) => Some(((cv, iv), c + 1)),
                                _ => None,
                            }
                        } else {
                            None
                        }
                    } else {
                        None
                    }
                },
            }
        },
    }
}

/// The routing-header object: `{`, its members, `}`.
pub open spec fn spec_parse_arg(s: Seq<char>, i: int) -> Option<((Seq<char>, Seq<char>), int)> {
    if 0 <= i <= s.len() {
        let j = skip_ws(s, i);
        if i <= j && j < s.len() && s[j] == '{' {
            spec_parse_arg_members(s, j + 1, None, None)
        } else {
            None
        }
    } else {
        None
    }
}

/// The members of one trade record, in any order: the five known fields
/// must each appear exactly once as strings; unknown members (such as a
/// record-level instrument) are skipped.
pub open spec fn spec_parse_record_members(s: Seq<char>, i: int, f: RecordFieldsView) -> Option<
    (OkxRawTradeView, int),
>
    decreases s.len() - i when 0 <= i <= s.len()
{
    match spec_parse_key(s, i) {
        None => None,
        Some((key, a)) => {
            let step = if key == "tradeId"@ {
                if f.id is Some {
                    None
                } else {
                    match spec_parse_string_value(s, a) {
                        Some((v, b)) => Some((
                            RecordFieldsView { id: Some(v), px: f.px, sz: f.sz, side: f.side, ts: f.ts },
                            b,
                        )),
                        None => None,
                    }
                }
            } else if key == "px"@ {
                if f.px is Some {
                    None
                } else {
                    match spec_parse_string_value(s, a) {
                        Some((v, b)) => Some((
                            RecordFieldsView { id: f.id, px: Some(v), sz: f.sz, side: f.side, ts: f.ts },
                            b,
                        )),
                        None => None,
                    }
                }
            } else if key == "sz"@ {
                if f.sz is Some {
                    None
                } else {
                    match spec_parse_string_value(s, a) {
                        Some((v, b)) => Some((
                            RecordFieldsView { id: f.id, px: f.px, sz: Some(v), side: f.side, ts: f.ts },
                            b,
                        )),
                        None => None,
                    }
                }
            } else if key == "side"@ {
                if f.side is Some {
                    None
                } else {
                    match spec_parse_string_value(s, a) {
                        Some((v, b)) => Some((
                            RecordFieldsView { id: f.id, px: f.px, sz: f.sz, side: Some(v), ts: f.ts },
                            b,
                        )),
                        None => None,
                    }
                }
            } else if key == "ts"@ {
                if f.ts is Some {
                    None
                } else {
                    match spec_parse_string_value(s, a) {
                        Some((v, b)) => Some((
                            RecordFieldsView { id: f.id, px: f.px, sz: f.sz, side: f.side, ts: Some(v) },
                            b,
                        )),
                        None => None,
                    }
                }
            } else {
                match spec_skip_value(s, a) {
                    Some(b) => Some((f, b)),
                    None => None,
                }
            };
            match step {
                None => None,
                Some((f2, b)) => {
                    let c = skip_ws(s, b);
                    if i < b && b <= c && c < s.len() {
                        if s[c] == ',' {
                            spec_parse_record_members(s, c + 1, f2)
                        } else if s[c] == '}' {
                            match (f2.id, f2.px, f2.sz, f2.side, f2.ts) {
                                (Some(id), Some(px), Some(sz), Some(side), Some(ts)) => Some((
                                    OkxRawTradeView { id, px, sz, side, ts },
                                    c + 1,
                                )),
                                _ => None,
                            }
                        } else {
                            None
                        }
                    } else {
                        None
                    }
                },
            }
        },
    }
}

/// One trade record: `{`, its members, `}`.
pub open spec fn spec_parse_record(s: Seq<char>, i: int) -> Option<(OkxRawTradeView, int)> {
    if 0 <= i <= s.len() {
        let j = skip_ws(s, i);
        if i <= j && j < s.len() && s[j] == '{' {
            spec_parse_record_members(
                s,
                j + 1,
                RecordFieldsView { id: None, px: None, sz: None, side: None, ts: None },
            )
        } else {
            None
        }
    } else {
        None
    }
}

/// After one record: either the array closes, or a comma and another
/// record follow.
pub open spec fn spec_parse_records_rest(s: Seq<char>, i: int) -> Option<
    (Seq<OkxRawTradeView>, int),
>
    decreases s.len() - i when 0 <= i <= s.len()
{
    let j = skip_ws(s, i);
    if i <= j && j < s.len() {
        if s[j] == ']' {
            Some((Seq::empty(), j + 1))
        } else if s[j] == ',' {
            match spec_parse_record(s, j + 1) {
                None => None,
                Some((r, e)) => if j + 1 < e <= s.len() {
                    match spec_parse_records_rest(s, e) {
                        None => None,
                        Some((rs, k)) => Some((seq![r] + rs, k)),
                    }
                } else {
                    None
                },
            }
        } else {
            None
        }
    } else {
        None
    }
}

/// The payload array body after `[`: zero or more records.
pub open spec fn spec_parse_records(s: Seq<char>, i: int) -> Option<(Seq<OkxRawTradeView>, int)> {
    if 0 <= i <= s.len() {
        let j = skip_ws(s, i);
        if i <= j && j < s.len() {
            if s[j] == ']' {
                Some((Seq::empty(), j + 1))
            } else {
                match spec_parse_record(s, j) {
                    None => None,
                    Some((r, e)) => if j < e <= s.len() {
                        match spec_parse_records_rest(s, e) {
                            None => None,
                            Some((rs, k)) => Some((seq![r] + rs, k)),
                        }
                    } else {
                        None
                    },
                }
            }
        } else {
            None
        }
    } else {
        None
    }
}

/// The envelope's members, in any order: `arg` (the routing header) and
/// `data` (the record array) must each appear exactly once; unknown
/// members holding scalar values are skipped.
pub open spec fn spec_parse_envelope_members(
    s: Seq<char>,
    i: int,
    arg: Option<(Seq<char>, Seq<char>)>,
    data: Option<Seq<OkxRawTradeView>>,
) -> Option<(OkxTradesView, int)>
    decreases s.len() - i when 0 <= i <= s.len()
{
    match spec_parse_key(s, i) {
        None => None,
        Some((key, a)) => {
            let step = if key == "arg"@ {
                if arg is Some {
                    None
                } else {
                    match spec_parse_arg(s, a) {
                        Some((header, b)) => Some((Some(header), data, b)),
                        None => None,
                    }
                }
            } else if key == "data"@ {
                if data is Some {
                    None
                } else {
                    if 0 <= a <= s.len() {
                        let j = skip_ws(s, a);
                        if a <= j && j < s.len() && s[j] == '[' {
                            match spec_parse_records(s, j + 1) {
                                Some((rs, b)) => Some((arg, Some(rs), b)),
                                None => None,
                            }
                        } else {
                            None
                        }
                    } else {
                        None
                    }
                }
            } else {
                match spec_skip_value(s, a) {
                    Some(b) => Some((arg, data, b)),
                    None => None,
                }
            };
            match step {
                None => None,
                Some((arg2, data2, b)) => {
                    let c = skip_ws(s, b);
                    if i < b && b <= c && c < s.len() {
                        if s[c] == ',' {
                            spec_parse_envelope_members(s, c + 1, arg2, data2)
                        } else if s[c] == '}' {
                            match (arg2, data2) {
                                (Some((cv, iv)), Some(rs)) => Some((
                                    OkxTradesView { channel: cv, instrument: iv, data: rs },
                                    c + 1,
                                )),
                                _ => None,
                            }
                        } else {
                            None
                        }
                    } else {
                        None
                    }
                },
            }
        },
    }
}

/// A whole trade wire unit; besides surrounding whitespace, the envelope
/// must span the entire input.
pub open spec fn spec_parse_trades(s: Seq<char>) -> Option<OkxTradesView> {
    let j = skip_ws(s, 0);
    if 0 <= j && j < s.len() && s[j] == '{' {
        match spec_parse_envelope_members(s, j + 1, None, None) {
            None => None,
            Some((v, e)) => if 0 <= e <= s.len() && skip_ws(s, e) == s.len() {
                Some(v)
            } else {
                None
            },
        }
    } else {
        None
    }
}

pub open spec fn opt_str_view(o: Option<String>) -> Option<Seq<char>> {
    match o {
        Some(v) => Some(v@),
        None => None,
    }
}

pub open spec fn fields_view(
    id: Option<String>,
    px: Option<String>,
    sz: Option<String>,
    side: Option<String>,
    ts: Option<String>,
) -> RecordFieldsView {
    RecordFieldsView {
        id: opt_str_view(id),
        px: opt_str_view(px),
        sz: opt_str_view(sz),
        side: opt_str_view(side),
        ts: opt_str_view(ts),
    }
}

/// Skip whitespace starting at `i`.
fn skip_ws_at(s: &str, i: usize) -> (r: usize)
    requires
        i <= s@.len(),
    ensures
        r as int == skip_ws(s@, i as int),
        i <= r <= s@.len(),
    decreases s@.len() - i,
{
    let n = s.unicode_len();
    if i < n {
        let c = s.get_char(i);
        if c == ' ' || c == '\t' || c == '\n' || c == '\r' {
            return skip_ws_at(s, i + 1);
        }
    }
    i
}

/// Parse the quoted string value at position `i`.
fn parse_string_at(s: &str, i: usize) -> (r: Option<(String, usize)>)
    ensures
        r is Some <==> spec_parse_string(s@, i as int) is Some,
        r matches Some((v, j)) ==> spec_parse_string(s@, i as int) == Some((v@, j as int))
            && i < j <= s@.len(),
{
    let n = s.unicode_len();
    if i >= n {
        return None;
    }
    if s.get_char(i) != '"' {
        return None;
    }
    let mut j: usize = i + 1;
    while j < n
        invariant
            i + 1 <= j <= n,
            n == s@.len(),
            i < s@.len(),
            s@[i as int] == '"',
            scan_quote(s@, i as int + 1) == scan_quote(s@, j as int),
        decreases n - j,
    {
        let c = s.get_char(j);
        if c == '"' {
            assert(scan_quote(s@, j as int) == Some(j as int));
            let content = s.substring_char(i + 1, j);
            return Some((String::from_str(content), j + 1));
        }
        if c == '\\' {
            assert(scan_quote(s@, j as int) is None);
            return None;
        }
        proof {
            assert(scan_quote(s@, j as int) == scan_quote(s@, j as int + 1));
        }
        j = j + 1;
    }
    assert(scan_quote(s@, j as int) is None);
    None
}

/// Skip to the end of a primitive token starting at `i`.
fn scan_prim_at(s: &str, i: usize) -> (r: usize)
    requires
        i <= s@.len(),
    ensures
        r as int == scan_prim(s@, i as int),
        i <= r <= s@.len(),
    decreases s@.len() - i,
{
    let n = s.unicode_len();
    if i < n {
        let c = s.get_char(i);
        if !(c == ' ' || c == '\t' || c == '\n' || c == '\r' || c == ',' || c == '}' || c == ']'
            || c == '"' || c == ':' || c == '{' || c == '[') {
            return scan_prim_at(s, i + 1);
        }
    }
    i
}

/// Pass over one uninterpreted member value.
fn skip_value_at(s: &str, i: usize) -> (r: Option<usize>)
    requires
        i <= s@.len(),
    ensures
        r is Some <==> spec_skip_value(s@, i as int) is Some,
        r matches Some(e) ==> spec_skip_value(s@, i as int) == Some(e as int) && i < e
            <= s@.len(),
{
    let j = skip_ws_at(s, i);
    let n = s.unicode_len();
    if j < n && s.get_char(j) == '"' {
        match parse_string_at(s, j) {
            Some((_v, e)) => Some(e),
            None => None,
        }
    } else {
        let e = scan_prim_at(s, j);
        if j < e {
            Some(e)
        } else {
            None
        }
    }
}

/// Parse a member key at position `i`.
fn parse_key_at(s: &str, i: usize) -> (r: Option<(String, usize)>)
    requires
        i <= s@.len(),
    ensures
        r is Some <==> spec_parse_key(s@, i as int) is Some,
        r matches Some((k, e)) ==> spec_parse_key(s@, i as int) == Some((k@, e as int)) && i < e
            <= s@.len(),
{
    let j = skip_ws_at(s, i);
    match parse_string_at(s, j) {
        None => None,
        Some((k, a)) => {
            let b = skip_ws_at(s, a);
            let n = s.unicode_len();
            if b < n && s.get_char(b) == ':' {
                Some((k, b + 1))
            } else {
                None
            }
        },
    }
}

/// Parse a member value that must be a quoted string.
fn parse_string_value_at(s: &str, i: usize) -> (r: Option<(String, usize)>)
    requires
        i <= s@.len(),
    ensures
        r is Some <==> spec_parse_string_value(s@, i as int) is Some,
        r matches Some((v, e)) ==> spec_parse_string_value(s@, i as int) == Some((v@, e as int))
            && i < e <= s@.len(),
{
    let j = skip_ws_at(s, i);
    parse_string_at(s, j)
}

/// Parse the routing-header object's members.
fn parse_arg_members_at(s: &str, i: usize, ch: Option<String>, inst: Option<String>) -> (r:
    Option<((String, String), usize)>)
    requires
        i <= s@.len(),
    ensures
        r is Some <==> spec_parse_arg_members(
            s@,
            i as int,
            opt_str_view(ch),
            opt_str_view(inst),
        ) is Some,
        r matches Some(((cv, iv), e)) ==> spec_parse_arg_members(
            s@,
            i as int,
            opt_str_view(ch),
            opt_str_view(inst),
        ) == Some(((cv@, iv@), e as int)) && i < e <= s@.len(),
    decreases s@.len() - i,
{
    let (key, a) = match parse_key_at(s, i) {
        None => { return None; },
        Some(x) => x,
    };
    let (ch2, inst2, b) = if eq_str(key.as_str(), "channel") {
        if ch.is_some() {
            return None;
        }
        match parse_string_value_at(s, a) {
            None => { return None; },
            Some((v, b)) => (Some(v), inst, b),
        }
    } else if eq_str(key.as_str(), "instId") {
        if inst.is_some() {
            return None;
        }
        match parse_string_value_at(s, a) {
            None => { return None; },
            Some((v, b)) => (ch, Some(v), b),
        }
    } else {
        match skip_value_at(s, a) {
            None => { return None; },
            Some(b) => (ch, inst, b),
        }
    };
    let c = skip_ws_at(s, b);
    let n = s.unicode_len();
    if c >= n {
        return None;
    }
    let cc = s.get_char(c);
    if cc == ',' {
        parse_arg_members_at(s, c + 1, ch2, inst2)
    } else if cc == '}' {
        match (ch2, inst2) {
            (Some(cv), Some(iv)) => Some(((cv, iv), c + 1)),
            _ => None,
        }
    } else {
        None
    }
}

/// Parse the routing-header object.
fn parse_arg_at(s: &str, i: usize) -> (r: Option<((String, String), usize)>)
    requires
        i <= s@.len(),
    ensures
        r is Some <==> spec_parse_arg(s@, i as int) is Some,
        r matches Some(((cv, iv), e)) ==> spec_parse_arg(s@, i as int) == Some((
            (cv@, iv@),
            e as int,
        )) && i < e <= s@.len(),
{
    let j = skip_ws_at(s, i);
    let n = s.unicode_len();
    if j < n && s.get_char(j) == '{' {
        parse_arg_members_at(s, j + 1, None, None)
    } else {
        None
    }
}

/// Parse one trade record's members.
fn parse_record_members_at(
    s: &str,
    i: usize,
    id: Option<String>,
    px: Option<String>,
    sz: Option<String>,
    side: Option<String>,
    ts: Option<String>,
) -> (r: Option<(OkxRawTrade, usize)>)
    requires
        i <= s@.len(),
    ensures
        r is Some <==> spec_parse_record_members(
            s@,
            i as int,
            fields_view(id, px, sz, side, ts),
        ) is Some,
        r matches Some((t, e)) ==> spec_parse_record_members(
            s@,
            i as int,
            fields_view(id, px, sz, side, ts),
        ) == Some((t@, e as int)) && i < e <= s@.len(),
    decreases s@.len() - i,
{
    let (key, a) = match parse_key_at(s, i) {
        None => { return None; },
        Some(x) => x,
    };
    let (id2, px2, sz2, side2, ts2, b) = if eq_str(key.as_str(), "tradeId") {
        if id.is_some() {
            return None;
        }
        match parse_string_value_at(s, a) {
            None => { return None; },
            Some((v, b)) => (Some(v), px, sz, side, ts, b),
        }
    } else if eq_str(key.as_str(), "px") {
        if px.is_some() {
            return None;
        }
        match parse_string_value_at(s, a) {
            None => { return None; },
            Some((v, b)) => (id, Some(v), sz, side, ts, b),
        }
    } else if eq_str(key.as_str(), "sz") {
        if sz.is_some() {
            return None;
        }
        match parse_string_value_at(s, a) {
            None => { return None; },
            Some((v, b)) => (id, px, Some(v), side, ts, b),
        }
    } else if eq_str(key.as_str(), "side") {
        if side.is_some() {
            return None;
        }
        match parse_string_value_at(s, a) {
            None => { return None; },
            Some((v, b)) => (id, px, sz, Some(v), ts, b),
        }
    } else if eq_str(key.as_str(), "ts") {
        if ts.is_some() {
            return None;
        }
        match parse_string_value_at(s, a) {
            None => { return None; },
            Some((v, b)) => (id, px, sz, side, Some(v), b),
        }
    } else {
        match skip_value_at(s, a) {
            None => { return None; },
            Some(b) => (id, px, sz, side, ts, b),
        }
    };
    let c = skip_ws_at(s, b);
    let n = s.unicode_len();
    if c >= n {
        return None;
    }
    let cc = s.get_char(c);
    if cc == ',' {
        parse_record_members_at(s, c + 1, id2, px2, sz2, side2, ts2)
    } else if cc == '}' {
        match (id2, px2, sz2, side2, ts2) {
            (Some(id3), Some(px3), Some(sz3), Some(side3), Some(ts3)) => Some((
                OkxRawTrade { id: id3, px: px3, sz: sz3, side: side3, ts: ts3 },
                c + 1,
            )),
            _ => None,
        }
    } else {
        None
    }
}

/// Parse one trade record at position `i`.
fn parse_record_at(s: &str, i: usize) -> (r: Option<(OkxRawTrade, usize)>)
    requires
        i <= s@.len(),
    ensures
        r is Some <==> spec_parse_record(s@, i as int) is Some,
        r matches Some((t, e)) ==> spec_parse_record(s@, i as int) == Some((t@, e as int)) && i
            < e <= s@.len(),
{
    let j = skip_ws_at(s, i);
    let n = s.unicode_len();
    if j < n && s.get_char(j) == '{' {
        parse_record_members_at(s, j + 1, None, None, None, None, None)
    } else {
        None
    }
}

/// Parse the continuation of the record array at position `i`.
fn parse_records_rest_at(s: &str, i: usize) -> (r: Option<(Vec<OkxRawTrade>, usize)>)
    requires
        i <= s@.len(),
    ensures
        r is Some <==> spec_parse_records_rest(s@, i as int) is Some,
        r matches Some((v, e)) ==> spec_parse_records_rest(s@, i as int) == Some((
            v.deep_view(),
            e as int,
        )) && i < e <= s@.len(),
    decreases s@.len() - i,
{
    let j = skip_ws_at(s, i);
    let n = s.unicode_len();
    if j >= n {
        return None;
    }
    let c = s.get_char(j);
    if c == ']' {
        let v: Vec<OkxRawTrade> = Vec::new();
        proof {
            assert(v.deep_view() =~= Seq::<OkxRawTradeView>::empty());
        }
        return Some((v, j + 1));
    }
    if c != ',' {
        return None;
    }
    let (t, e) = match parse_record_at(s, j + 1) {
        None => { return None; },
        Some(x) => x,
    };
    let (mut v, k) = match parse_records_rest_at(s, e) {
        None => { return None; },
        Some(x) => x,
    };
    let ghost dv = v.deep_view();
    v.insert(0, t);
    proof {
        assert(v.deep_view() =~= seq![t@] + dv);
    }
    Some((v, k))
}

/// Parse the record array body at position `i` (just after `[`).
fn parse_records_at(s: &str, i: usize) -> (r: Option<(Vec<OkxRawTrade>, usize)>)
    requires
        i <= s@.len(),
    ensures
        r is Some <==> spec_parse_records(s@, i as int) is Some,
        r matches Some((v, e)) ==> spec_parse_records(s@, i as int) == Some((
            v.deep_view(),
            e as int,
        )) && i < e <= s@.len(),
{
    let j = skip_ws_at(s, i);
    let n = s.unicode_len();
    if j >= n {
        return None;
    }
    if s.get_char(j) == ']' {
        let v: Vec<OkxRawTrade> = Vec::new();
        proof {
            assert(v.deep_view() =~= Seq::<OkxRawTradeView>::empty());
        }
        return Some((v, j + 1));
    }
    let (t, e) = match parse_record_at(s, j) {
        None => { return None; },
        Some(x) => x,
    };
    let (mut v, k) = match parse_records_rest_at(s, e) {
        None => { return None; },
        Some(x) => x,
    };
    let ghost dv = v.deep_view();
    v.insert(0, t);
    proof {
        assert(v.deep_view() =~= seq![t@] + dv);
    }
    Some((v, k))
}

pub open spec fn opt_header_view(o: Option<(String, String)>) -> Option<(Seq<char>, Seq<char>)> {
    match o {
        Some(h) => Some((h.0@, h.1@)),
        None => None,
    }
}

pub open spec fn opt_data_view(o: Option<Vec<OkxRawTrade>>) -> Option<Seq<OkxRawTradeView>> {
    match o {
        Some(v) => Some(v.deep_view()),
        None => None,
    }
}

/// Parse the envelope's members.
fn parse_envelope_members_at(
    s: &str,
    i: usize,
    arg: Option<(String, String)>,
    data: Option<Vec<OkxRawTrade>>,
) -> (r: Option<((String, String, Vec<OkxRawTrade>), usize)>)
    requires
        i <= s@.len(),
    ensures
        r is Some <==> spec_parse_envelope_members(
            s@,
            i as int,
            opt_header_view(arg),
            opt_data_view(data),
        ) is Some,
        r matches Some(((cv, iv, rs), e)) ==> spec_parse_envelope_members(
            s@,
            i as int,
            opt_header_view(arg),
            opt_data_view(data),
        ) == Some((
            OkxTradesView { channel: cv@, instrument: iv@, data: rs.deep_view() },
            e as int,
        )) && i < e <= s@.len(),
    decreases s@.len() - i,
{
    let (key, a) = match parse_key_at(s, i) {
        None => { return None; },
        Some(x) => x,
    };
    let (arg2, data2, b) = if eq_str(key.as_str(), "arg") {
        if arg.is_some() {
            return None;
        }
        match parse_arg_at(s, a) {
            None => { return None; },
            Some((header, b)) => (Some(header), data, b),
        }
    } else if eq_str(key.as_str(), "data") {
        if data.is_some() {
            return None;
        }
        let j = skip_ws_at(s, a);
        let n = s.unicode_len();
        if j >= n || s.get_char(j) != '[' {
            return None;
        }
        match parse_records_at(s, j + 1) {
            None => { return None; },
            Some((rs, b)) => (arg, Some(rs), b),
        }
    } else {
        match skip_value_at(s, a) {
            None => { return None; },
            Some(b) => (arg, data, b),
        }
    };
    let c = skip_ws_at(s, b);
    let n = s.unicode_len();
    if c >= n {
        return None;
    }
    let cc = s.get_char(c);
    if cc == ',' {
        parse_envelope_members_at(s, c + 1, arg2, data2)
    } else if cc == '}' {
        match (arg2, data2) {
            (Some(header), Some(rs)) => Some(((header.0, header.1, rs), c + 1)),
            _ => None,
        }
    } else {
        None
    }
}

/// Parse one whole trade wire unit: the routing header and every raw
/// record, or nothing if the input does not match the grammar.
pub fn parse_trades_wire(s: &str) -> (r: Option<(String, String, Vec<OkxRawTrade>)>)
    ensures
        r is Some <==> spec_parse_trades(s@) is Some,
        r matches Some((channel, instrument, data)) ==> spec_parse_trades(s@)
            == Some(OkxTradesView {
                channel: channel@,
                instrument: instrument@,
                data: data.deep_view(),
            }),
{
    let j = skip_ws_at(s, 0);
    let n = s.unicode_len();
    if j >= n || s.get_char(j) != '{' {
        return None;
    }
    let ((cv, iv, rs), e) = match parse_envelope_members_at(s, j + 1, None, None) {
        None => { return None; },
        Some(x) => x,
    };
    let end = skip_ws_at(s, e);
    if end != n {
        return None;
    }
    Some((cv, iv, rs))
}

} // verus!
