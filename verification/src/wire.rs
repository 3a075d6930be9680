//! The tag-set wire document: `{"TagSet":[{"Key":k,"Value":v}, ...]}`,
//! with JSON string escaping of keys and values. The serializer emits the
//! canonical document; the parser accepts exactly the canonical shape and
//! round-trips every serialized tag set.

use vstd::prelude::*;

use crate::evaluate::{spec_tag_pairs, TagSet};
use crate::tags::Tag;
use crate::text::push_char;

verus! {

/// The escaped form of one character inside a JSON string: quote and
/// backslash get a backslash prefix, every other character stands as is.
pub open spec fn spec_escape_char(c: char) -> Seq<char> {
    if c == '"' {
        seq!['\\', '"']
    } else if c == '\\' {
        seq!['\\', '\\']
    } else {
        seq![c]
    }
}

/// The escaped form of a string's characters.
pub open spec fn spec_escape(s: Seq<char>) -> Seq<char>
    decreases s.len(),
{
    if s.len() == 0 {
        seq![]
    } else {
        spec_escape_char(s[0]) + spec_escape(s.skip(1))
    }
}

/// A JSON string literal: the escaped characters between double quotes.
pub open spec fn spec_quoted(s: Seq<char>) -> Seq<char> {
    seq!['"'] + spec_escape(s) + seq!['"']
}

/// The text that introduces a tag object's key: `{"Key":`.
pub open spec fn spec_key_prefix() -> Seq<char> {
    seq!['{', '"', 'K', 'e', 'y', '"', ':']
}

/// The text between a tag object's key and value: `,"Value":`.
pub open spec fn spec_value_infix() -> Seq<char> {
    seq![',', '"', 'V', 'a', 'l', 'u', 'e', '"', ':']
}

/// The text that opens the document: `{"TagSet":[`.
pub open spec fn spec_doc_prefix() -> Seq<char> {
    seq!['{', '"', 'T', 'a', 'g', 'S', 'e', 't', '"', ':', '[']
}

/// One serialized tag object: `{"Key":k,"Value":v}`.
pub open spec fn spec_tag_doc(p: (Seq<char>, Seq<char>)) -> Seq<char> {
    spec_key_prefix() + spec_quoted(p.0) + spec_value_infix() + spec_quoted(p.1) + seq!['}']
}

/// The serialized tag objects, joined by commas.
pub open spec fn spec_tags_doc(ps: Seq<(Seq<char>, Seq<char>)>) -> Seq<char>
    decreases ps.len(),
{
    if ps.len() == 0 {
        seq![]
    } else if ps.len() == 1 {
        spec_tag_doc(ps[0])
    } else {
        spec_tag_doc(ps[0]) + seq![','] + spec_tags_doc(ps.skip(1))
    }
}

/// The whole wire document for an ordered sequence of key/value pairs.
pub open spec fn spec_tag_set_doc(ps: Seq<(Seq<char>, Seq<char>)>) -> Seq<char> {
    spec_doc_prefix() + spec_tags_doc(ps) + seq![']', '}']
}

/// Escaping distributes over extending the input by one character.
proof fn lemma_escape_snoc(s: Seq<char>, c: char)
    ensures
        spec_escape(s.push(c)) == spec_escape(s) + spec_escape_char(c),
    decreases s.len(),
{
    if s.len() == 0 {
        assert(s.push(c)[0] == c);
        assert(s.push(c).skip(1) =~= s);
        assert(spec_escape(s.push(c)) == spec_escape_char(c) + spec_escape(s));
        assert(spec_escape(s) =~= Seq::<char>::empty());
        assert(spec_escape(s.push(c)) =~= spec_escape(s) + spec_escape_char(c));
    } else {
        assert(s.push(c)[0] == s[0]);
        assert(s.push(c).skip(1) =~= s.skip(1).push(c));
        lemma_escape_snoc(s.skip(1), c);
        assert(spec_escape(s.push(c)) =~= spec_escape(s) + spec_escape_char(c));
    }
}

/// The document of one more tag appends a comma (when tags precede it)
/// and that tag's object.
proof fn lemma_tags_doc_snoc(ps: Seq<(Seq<char>, Seq<char>)>, p: (Seq<char>, Seq<char>))
    ensures
        spec_tags_doc(ps.push(p)) == if ps.len() == 0 {
            spec_tag_doc(p)
        } else {
            spec_tags_doc(ps) + seq![','] + spec_tags_doc(seq![p])
        },
    decreases ps.len(),
{
    if ps.len() == 0 {
        assert(ps.push(p)[0] == p);
    } else {
        assert(ps.push(p)[0] == ps[0]);
        assert(ps.push(p).skip(1) =~= ps.skip(1).push(p));
        lemma_tags_doc_snoc(ps.skip(1), p);
        if ps.len() == 1 {
            assert(ps.skip(1).len() == 0);
            assert(spec_tags_doc(ps.push(p)) =~= spec_tags_doc(ps) + seq![','] + spec_tags_doc(
                seq![p],
            ));
        } else {
            assert(spec_tags_doc(ps.push(p)) =~= spec_tags_doc(ps) + seq![','] + spec_tags_doc(
                seq![p],
            ));
        }
    }
}

fn append_escaped(s: &str, out: &mut String)
    ensures
        final(out)@ == old(out)@ + spec_escape(s@),
{
    let len = s.unicode_len();
    let mut i: usize = 0;
    proof {
        assert(s@.take(0) =~= Seq::<char>::empty());
        assert(out@ =~= out@ + spec_escape(s@.take(0)));
    }
    while i < len
        invariant
            i <= len,
            len == s@.len(),
            out@ == old(out)@ + spec_escape(s@.take(i as int)),
        decreases len - i,
    {
        let c = s.get_char(i);
        if c == '"' {
            push_char(out, '\\');
            push_char(out, '"');
        } else if c == '\\' {
            push_char(out, '\\');
            push_char(out, '\\');
        } else {
            push_char(out, c);
        }
        proof {
            assert(s@.take(i + 1) =~= s@.take(i as int).push(s@[i as int]));
            lemma_escape_snoc(s@.take(i as int), s@[i as int]);
            assert(out@ =~= old(out)@ + spec_escape(s@.take(i + 1)));
        }
        i += 1;
    }
    proof {
        assert(s@.take(len as int) =~= s@);
    }
}

fn append_quoted(s: &str, out: &mut String)
    ensures
        final(out)@ == old(out)@ + spec_quoted(s@),
{
    push_char(out, '"');
    append_escaped(s, out);
    push_char(out, '"');
    proof {
        assert(out@ =~= old(out)@ + spec_quoted(s@));
    }
}

fn append_tag_doc(t: &Tag, out: &mut String)
    ensures
        final(out)@ == old(out)@ + spec_tag_doc((t.key@, t.value@)),
{
    let prefix = String::from_str("{\"Key\":");
    proof {
        reveal_strlit("{\"Key\":");
        assert(prefix@ =~= spec_key_prefix());
    }
    out.append(prefix.as_str());
    append_quoted(t.key.as_str(), out);
    let infix = String::from_str(",\"Value\":");
    proof {
        reveal_strlit(",\"Value\":");
        assert(infix@ =~= spec_value_infix());
    }
    out.append(infix.as_str());
    append_quoted(t.value.as_str(), out);
    push_char(out, '}');
    proof {
        assert(out@ =~= old(out)@ + spec_tag_doc((t.key@, t.value@)));
    }
}

/// Serializes a tag set to the wire document, preserving tag order.
pub fn serialize_tag_set(ts: &TagSet) -> (r: String)
    ensures
        r@ == spec_tag_set_doc(spec_tag_pairs(ts.tag_set@)),
{
    let mut out = String::from_str("{\"TagSet\":[");
    proof {
        reveal_strlit("{\"TagSet\":[");
        assert(out@ =~= spec_doc_prefix());
    }
    let mut i: usize = 0;
    proof {
        assert(ts.tag_set@.take(0) =~= Seq::<Tag>::empty());
        assert(spec_tag_pairs(ts.tag_set@.take(0)) =~= Seq::<(Seq<char>, Seq<char>)>::empty());
        assert(out@ =~= spec_doc_prefix() + spec_tags_doc(spec_tag_pairs(ts.tag_set@.take(0))));
    }
    while i < ts.tag_set.len()
        invariant
            i <= ts.tag_set@.len(),
            out@ == spec_doc_prefix() + spec_tags_doc(spec_tag_pairs(ts.tag_set@.take(i as int))),
        decreases ts.tag_set@.len() - i,
    {
        if i > 0 {
            push_char(&mut out, ',');
        }
        append_tag_doc(&ts.tag_set[i], &mut out);
        proof {
            let t = ts.tag_set@[i as int];
            assert(ts.tag_set@.take(i + 1) =~= ts.tag_set@.take(i as int).push(t));
            crate::evaluate::lemma_tag_pairs_push(ts.tag_set@.take(i as int), t);
            lemma_tags_doc_snoc(
                spec_tag_pairs(ts.tag_set@.take(i as int)),
                (t.key@, t.value@),
            );
            assert(spec_tags_doc(seq![(t.key@, t.value@)]) == spec_tag_doc((t.key@, t.value@)));
            assert(spec_tag_pairs(ts.tag_set@.take(i as int)).len() == i as int);
            assert(out@ =~= spec_doc_prefix() + spec_tags_doc(
                spec_tag_pairs(ts.tag_set@.take(i + 1)),
            ));
        }
        i += 1;
    }
    proof {
        assert(ts.tag_set@.take(ts.tag_set@.len() as int) =~= ts.tag_set@);
    }
    push_char(&mut out, ']');
    push_char(&mut out, '}');
    proof {
        assert(out@ =~= spec_tag_set_doc(spec_tag_pairs(ts.tag_set@)));
    }
    out
}

/// Parses a JSON string from `i` (just after the opening quote) through
/// its closing quote: the unescaped content and the index after the
/// closing quote. Only quote and backslash escapes are recognized,
/// exactly the ones the serializer emits.
pub open spec fn spec_parse_string_body(s: Seq<char>, i: int) -> Option<(Seq<char>, int)>
    decreases s.len() - i,
{
    if i < 0 || i >= s.len() {
        None
    } else if s[i] == '"' {
        Some((seq![], i + 1))
    } else if s[i] == '\\' {
        if i + 1 < s.len() && (s[i + 1] == '"' || s[i + 1] == '\\') {
            match spec_parse_string_body(s, i + 2) {
                Some((t, j)) => Some((seq![s[i + 1]] + t, j)),
                None => None,
            }
        } else {
            None
        }
    } else {
        match spec_parse_string_body(s, i + 1) {
            Some((t, j)) => Some((seq![s[i]] + t, j)),
            None => None,
        }
    }
}

/// A successful string-body parse consumes at least one character and
/// stays inside the input.
pub proof fn lemma_parse_string_body_bounds(s: Seq<char>, i: int)
    ensures
        spec_parse_string_body(s, i) matches Some((t, j)) ==> i < j <= s.len(),
    decreases s.len() - i,
{
    if 0 <= i < s.len() {
        if s[i] == '"' {
        } else if s[i] == '\\' {
            if i + 1 < s.len() && (s[i + 1] == '"' || s[i + 1] == '\\') {
                lemma_parse_string_body_bounds(s, i + 2);
            }
        } else {
            lemma_parse_string_body_bounds(s, i + 1);
        }
    }
}

/// Whether the text `lit` stands in `s` at position `i`.
pub open spec fn spec_match_at(s: Seq<char>, i: int, lit: Seq<char>) -> bool {
    0 <= i && i + lit.len() <= s.len() && s.subrange(i, i + lit.len()) == lit
}

/// Parses one serialized tag object at `i`: its key/value pair and the
/// index after the closing brace.
pub open spec fn spec_parse_tag(s: Seq<char>, i: int) -> Option<((Seq<char>, Seq<char>), int)> {
    if spec_match_at(s, i, spec_key_prefix().push('"')) {
        match spec_parse_string_body(s, i + spec_key_prefix().len() + 1) {
            Some((k, j)) => if spec_match_at(s, j, spec_value_infix().push('"')) {
                match spec_parse_string_body(s, j + spec_value_infix().len() + 1) {
                    Some((v, m)) => if m < s.len() && s[m] == '}' {
                        Some(((k, v), m + 1))
                    } else {
                        None
                    },
                    None => None,
                }
            } else {
                None
            },
            None => None,
        }
    } else {
        None
    }
}

/// A successful tag parse consumes at least one character and stays
/// inside the input.
pub proof fn lemma_parse_tag_bounds(s: Seq<char>, i: int)
    ensures
        spec_parse_tag(s, i) matches Some((p, j)) ==> i < j <= s.len(),
{
    if spec_match_at(s, i, spec_key_prefix().push('"')) {
        lemma_parse_string_body_bounds(s, i + spec_key_prefix().len() + 1);
        match spec_parse_string_body(s, i + spec_key_prefix().len() + 1) {
            Some((k, j)) => {
                lemma_parse_string_body_bounds(s, j + spec_value_infix().len() + 1);
            },
            None => {},
        }
    }
}

/// Parses one or more comma-separated tag objects at `i`: the pairs in
/// order and the index after the last object.
pub open spec fn spec_parse_tags(s: Seq<char>, i: int) -> Option<
    (Seq<(Seq<char>, Seq<char>)>, int),
>
    decreases s.len() - i,
    when 0 <= i <= s.len()
    via spec_parse_tags_decreases
{
    match spec_parse_tag(s, i) {
        Some((p, j)) => if j < s.len() && s[j] == ',' {
            match spec_parse_tags(s, j + 1) {
                Some((ps, k)) => Some((seq![p] + ps, k)),
                None => None,
            }
        } else {
            Some((seq![p], j))
        },
        None => None,
    }
}

#[via_fn]
proof fn spec_parse_tags_decreases(s: Seq<char>, i: int) {
    lemma_parse_tag_bounds(s, i);
}

/// Parses a whole wire document: the ordered key/value pairs of its tag
/// set, or `None` for anything but the canonical shape.
pub open spec fn spec_parse_tag_set(s: Seq<char>) -> Option<Seq<(Seq<char>, Seq<char>)>> {
    if spec_match_at(s, 0, spec_doc_prefix()) {
        let i = spec_doc_prefix().len() as int;
        if s.len() == i + 2 && spec_match_at(s, i, seq![']', '}']) {
            Some(seq![])
        } else {
            match spec_parse_tags(s, i) {
                Some((ps, j)) => if j + 2 == s.len() && s[j] == ']' && s[j + 1] == '}' {
                    Some(ps)
                } else {
                    None
                },
                None => None,
            }
        }
    } else {
        None
    }
}

/// Parsing a serialized string body recovers the original characters:
/// wherever the escaped text followed by a closing quote stands, the
/// string-body parse yields exactly the unescaped content.
proof fn lemma_parse_escaped(pre: Seq<char>, s: Seq<char>, suf: Seq<char>)
    ensures
        spec_parse_string_body(pre + (spec_escape(s) + seq!['"']) + suf, pre.len() as int) == Some(
            (s, pre.len() + spec_escape(s).len() + 1 as int),
        ),
    decreases s.len(),
{
    let e = spec_escape(s);
    let u = pre + (e + seq!['"']) + suf;
    let i = pre.len() as int;
    if s.len() == 0 {
        assert(e =~= Seq::<char>::empty());
        assert(u[i] == '"');
        assert(spec_parse_string_body(u, i) == Some((Seq::<char>::empty(), i + 1)));
        assert(Seq::<char>::empty() =~= s);
    } else {
        let c = s[0];
        let rest = s.skip(1);
        let ec = spec_escape_char(c);
        assert(e == ec + spec_escape(rest));
        let pre2 = pre + ec;
        let u2 = pre2 + (spec_escape(rest) + seq!['"']) + suf;
        assert(u =~= u2);
        lemma_parse_escaped(pre2, rest, suf);
        assert(spec_parse_string_body(u, pre2.len() as int) == Some(
            (rest, pre2.len() + spec_escape(rest).len() + 1 as int),
        ));
        if c == '"' || c == '\\' {
            assert(u[i] == '\\');
            assert(u[i + 1] == c);
            assert(spec_parse_string_body(u, i) == Some((seq![c] + rest, i + e.len() + 1)));
            assert(seq![c] + rest =~= s);
        } else {
            assert(u[i] == c);
            assert(spec_parse_string_body(u, i) == Some((seq![c] + rest, i + e.len() + 1)));
            assert(seq![c] + rest =~= s);
        }
    }
}

/// Parsing a serialized tag object recovers its key/value pair: wherever
/// the object's text stands, the tag parse yields exactly that pair and
/// stops right after it.
proof fn lemma_parse_tag_doc(pre: Seq<char>, p: (Seq<char>, Seq<char>), suf: Seq<char>)
    ensures
        spec_parse_tag(pre + spec_tag_doc(p) + suf, pre.len() as int) == Some(
            (p, (pre.len() + spec_tag_doc(p).len()) as int),
        ),
{
    let d = spec_tag_doc(p);
    let u = pre + d + suf;
    let i = pre.len() as int;
    let ek = spec_escape(p.0);
    let ev = spec_escape(p.1);
    let kp = spec_key_prefix().push('"');
    let vi = spec_value_infix().push('"');
    assert(d.len() == 8 + (ek.len() + 1) + 10 + (ev.len() + 1) + 1);
    assert(u.subrange(i, i + 8) =~= kp);
    assert(spec_match_at(u, i, kp));
    let pre_k = pre + kp;
    let suf_k = spec_value_infix() + spec_quoted(p.1) + seq!['}'] + suf;
    assert(u =~= pre_k + (ek + seq!['"']) + suf_k);
    lemma_parse_escaped(pre_k, p.0, suf_k);
    assert(spec_parse_string_body(u, i + 8) == Some((p.0, i + 8 + ek.len() + 1)));
    let j = i + 8 + ek.len() + 1;
    assert(u.subrange(j, j + 10) =~= vi);
    assert(spec_match_at(u, j, vi));
    let pre_v = pre_k + (ek + seq!['"']) + vi;
    let suf_v = seq!['}'] + suf;
    assert(u =~= pre_v + (ev + seq!['"']) + suf_v);
    lemma_parse_escaped(pre_v, p.1, suf_v);
    assert(pre_v.len() == j + 10);
    assert(spec_parse_string_body(u, j + 10) == Some((p.1, j + 10 + ev.len() + 1)));
    let m = j + 10 + ev.len() + 1;
    assert(u[m] == '}');
    assert(m + 1 == i + d.len());
}

/// Parsing serialized tag objects recovers the whole sequence of pairs,
/// provided the character right after them is not a continuing comma.
proof fn lemma_parse_tags_docs(pre: Seq<char>, ps: Seq<(Seq<char>, Seq<char>)>, suf: Seq<char>)
    requires
        ps.len() >= 1,
        suf.len() >= 1,
        suf[0] != ',',
    ensures
        spec_parse_tags(pre + spec_tags_doc(ps) + suf, pre.len() as int) == Some(
            (ps, (pre.len() + spec_tags_doc(ps).len()) as int),
        ),
    decreases ps.len(),
{
    let d = spec_tags_doc(ps);
    let d0 = spec_tag_doc(ps[0]);
    let u = pre + d + suf;
    let i = pre.len() as int;
    if ps.len() == 1 {
        assert(d == d0);
        assert(u =~= pre + d0 + suf);
        lemma_parse_tag_doc(pre, ps[0], suf);
        let j = i + d0.len() as int;
        assert(u[j] == suf[0]);
        assert(u[j] != ',');
        assert(spec_parse_tags(u, i) == Some((seq![ps[0]], j)));
        assert(seq![ps[0]] =~= ps);
    } else {
        let drest = spec_tags_doc(ps.skip(1));
        assert(d == d0 + seq![','] + drest);
        let suf0 = seq![','] + drest + suf;
        assert(u =~= pre + d0 + suf0);
        lemma_parse_tag_doc(pre, ps[0], suf0);
        let j = i + d0.len() as int;
        assert(u[j] == ',');
        let pre2 = pre + d0 + seq![','];
        assert(u =~= pre2 + drest + suf);
        assert(ps.skip(1).len() >= 1);
        lemma_parse_tags_docs(pre2, ps.skip(1), suf);
        assert(pre2.len() == j + 1);
        assert(spec_parse_tags(u, j + 1) == Some((ps.skip(1), j + 1 + drest.len())));
        assert(j + 1 + drest.len() == i + d.len());
        assert(spec_parse_tags(u, i) == Some((seq![ps[0]] + ps.skip(1), i + d.len())));
        assert(seq![ps[0]] + ps.skip(1) =~= ps);
    }
}

/// Serializing a tag set and parsing the document back yields the
/// identical ordered sequence of key/value pairs, for every tag set.
pub proof fn lemma_wire_round_trip(ps: Seq<(Seq<char>, Seq<char>)>)
    ensures
        spec_parse_tag_set(spec_tag_set_doc(ps)) == Some(ps),
{
    let u = spec_tag_set_doc(ps);
    let d = spec_tags_doc(ps);
    assert(u.subrange(0, 11) =~= spec_doc_prefix());
    assert(spec_match_at(u, 0, spec_doc_prefix()));
    if ps.len() == 0 {
        assert(d =~= Seq::<char>::empty());
        assert(u.len() == 13);
        assert(u.subrange(11, 13) =~= seq![']', '}']);
        assert(spec_match_at(u, 11, seq![']', '}']));
        assert(Seq::<(Seq<char>, Seq<char>)>::empty() =~= ps);
    } else {
        let d0 = spec_tag_doc(ps[0]);
        assert(d0.len() >= 21);
        if ps.len() == 1 {
            assert(d.len() >= 21);
        } else {
            assert(d.len() >= 21);
        }
        assert(u.len() != 13);
        let suf = seq![']', '}'];
        assert(u =~= spec_doc_prefix() + d + suf);
        lemma_parse_tags_docs(spec_doc_prefix(), ps, suf);
        let j = 11 + d.len() as int;
        assert(spec_parse_tags(u, 11) == Some((ps, j)));
        assert(u[j] == ']');
        assert(u[j + 1] == '}');
        assert(j + 2 == u.len());
    }
}

fn expect_lit(s: &str, i: usize, lit: &str) -> (r: bool)
    ensures
        r == spec_match_at(s@, i as int, lit@),
{
    let slen = s.unicode_len();
    let llen = lit.unicode_len();
    if llen > slen || i > slen - llen {
        return false;
    }
    let mut k: usize = 0;
    while k < llen
        invariant
            k <= llen,
            llen == lit@.len(),
            slen == s@.len(),
            i + llen <= slen,
            forall|m: int| 0 <= m < k ==> s@[i + m] == lit@[m],
        decreases llen - k,
    {
        if s.get_char(i + k) != lit.get_char(k) {
            proof {
                if spec_match_at(s@, i as int, lit@) {
                    assert(s@.subrange(i as int, i + lit@.len())[k as int] == lit@[k as int]);
                }
            }
            return false;
        }
        k += 1;
    }
    proof {
        assert(s@.subrange(i as int, i + lit@.len()) =~= lit@);
    }
    true
}

fn parse_string_body(s: &str, i: usize) -> (r: Option<(String, usize)>)
    requires
        i <= s@.len(),
    ensures
        r matches Some((t, j)) ==> spec_parse_string_body(s@, i as int) == Some((t@, j as int))
            && i < j <= s@.len(),
        r is None ==> spec_parse_string_body(s@, i as int) is None,
{
    let len = s.unicode_len();
    let mut acc = String::new();
    let mut k = i;
    proof {
        assert(acc@ =~= Seq::<char>::empty());
    }
    loop
        invariant
            i <= k <= len,
            len == s@.len(),
            (match spec_parse_string_body(s@, k as int) {
                Some((t, j)) => spec_parse_string_body(s@, i as int) == Some((acc@ + t, j)),
                None => spec_parse_string_body(s@, i as int) is None,
            }),
        decreases len - k,
    {
        if k >= len {
            return None;
        }
        let c = s.get_char(k);
        if c == '"' {
            proof {
                lemma_parse_string_body_bounds(s@, i as int);
                assert(acc@ + Seq::<char>::empty() =~= acc@);
            }
            return Some((acc, k + 1));
        } else if c == '\\' {
            if k + 1 < len {
                let e = s.get_char(k + 1);
                if e == '"' || e == '\\' {
                    push_char(&mut acc, e);
                    proof {
                        let ghost ec = s@[k + 1];
                        match spec_parse_string_body(s@, k + 2) {
                            Some((t, j)) => {
                                assert(acc@ + t =~= acc@.drop_last() + (seq![ec] + t));
                            },
                            None => {},
                        }
                    }
                    k = k + 2;
                } else {
                    return None;
                }
            } else {
                return None;
            }
        } else {
            push_char(&mut acc, c);
            proof {
                match spec_parse_string_body(s@, k + 1) {
                    Some((t, j)) => {
                        assert(acc@ + t =~= acc@.drop_last() + (seq![s@[k as int]] + t));
                    },
                    None => {},
                }
            }
            k = k + 1;
        }
    }
}

fn parse_tag(s: &str, i: usize) -> (r: Option<(Tag, usize)>)
    requires
        i <= s@.len(),
    ensures
        r matches Some((t, j)) ==> spec_parse_tag(s@, i as int) == Some(
            ((t.key@, t.value@), j as int),
        ) && i < j <= s@.len(),
        r is None ==> spec_parse_tag(s@, i as int) is None,
{
    proof {
        reveal_strlit("{\"Key\":\"");
        assert("{\"Key\":\""@ =~= spec_key_prefix().push('"'));
        reveal_strlit(",\"Value\":\"");
        assert(",\"Value\":\""@ =~= spec_value_infix().push('"'));
    }
    let len = s.unicode_len();
    if !expect_lit(s, i, "{\"Key\":\"") {
        return None;
    }
    proof {
        assert(i + 8 <= len);
    }
    let (key, j) = match parse_string_body(s, i + 8) {
        Some(x) => x,
        None => {
            return None;
        },
    };
    if !expect_lit(s, j, ",\"Value\":\"") {
        return None;
    }
    proof {
        assert(j + 10 <= len);
    }
    let (value, m) = match parse_string_body(s, j + 10) {
        Some(x) => x,
        None => {
            return None;
        },
    };
    if m < len && s.get_char(m) == '}' {
        Some((Tag { key, value }, m + 1))
    } else {
        None
    }
}

fn parse_tags(s: &str, i: usize) -> (r: Option<(Vec<Tag>, usize)>)
    requires
        i <= s@.len(),
    ensures
        r matches Some((ts, j)) ==> spec_parse_tags(s@, i as int) == Some(
            (spec_tag_pairs(ts@), j as int),
        ) && i < j <= s@.len(),
        r is None ==> spec_parse_tags(s@, i as int) is None,
    decreases s@.len() - i,
{
    let (tag, j) = match parse_tag(s, i) {
        Some(x) => x,
        None => {
            return None;
        },
    };
    let len = s.unicode_len();
    if j < len && s.get_char(j) == ',' {
        match parse_tags(s, j + 1) {
            Some((ts, k)) => {
                let ghost rest = ts@;
                let mut ts = ts;
                ts.insert(0, tag);
                proof {
                    assert(spec_tag_pairs(ts@) =~= seq![(tag.key@, tag.value@)] + spec_tag_pairs(
                        rest,
                    ));
                }
                Some((ts, k))
            },
            None => None,
        }
    } else {
        let mut ts: Vec<Tag> = Vec::new();
        let ghost kv = (tag.key@, tag.value@);
        ts.push(tag);
        proof {
            assert(spec_tag_pairs(ts@) =~= seq![kv]);
        }
        Some((ts, j))
    }
}

/// Parses a wire document back into a tag set. Exactly the canonical
/// documents are accepted: anything else yields `None`.
pub fn parse_tag_set(s: &str) -> (r: Option<TagSet>)
    ensures
        r matches Some(ts) ==> spec_parse_tag_set(s@) == Some(spec_tag_pairs(ts.tag_set@)),
        r is None ==> spec_parse_tag_set(s@) is None,
{
    proof {
        reveal_strlit("{\"TagSet\":[");
        assert("{\"TagSet\":["@ =~= spec_doc_prefix());
        reveal_strlit("]}");
        assert("]}"@ =~= seq![']', '}']);
    }
    if !expect_lit(s, 0, "{\"TagSet\":[") {
        return None;
    }
    let len = s.unicode_len();
    if len == 13 && expect_lit(s, 11, "]}") {
        let ts = TagSet { tag_set: Vec::new() };
        proof {
            assert(spec_tag_pairs(ts.tag_set@) =~= Seq::<(Seq<char>, Seq<char>)>::empty());
        }
        return Some(ts);
    }
    match parse_tags(s, 11) {
        Some((ts, j)) => {
            if len >= 2 && j == len - 2 && expect_lit(s, j, "]}") {
                proof {
                    assert(s@.subrange(j as int, j + 2)[0] == s@[j as int]);
                    assert(s@.subrange(j as int, j + 2)[1] == s@[j + 1]);
                }
                Some(TagSet { tag_set: ts })
            } else {
                proof {
                    if j + 2 == s@.len() && s@[j as int] == ']' && s@[j + 1] == '}' {
                        assert(s@.subrange(j as int, j + 2) =~= seq![']', '}']);
                    }
                }
                None
            }
        },
        None => None,
    }
}

} // verus!

