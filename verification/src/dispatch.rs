use vstd::prelude::*;

use crate::resource::str_eq;

verus! {

/// The consumed position after a literal, when the input carries exactly
/// that literal at the position.
pub open spec fn expect_lit(s: Seq<char>, i: int, lit: Seq<char>) -> Option<int> {
    if 0 <= i && i + lit.len() <= s.len() && s.subrange(i, i + lit.len()) == lit {
        Some(i + lit.len())
    } else {
        None
    }
}

fn expect_lit_exec(s: &str, i: usize, lit: &str) -> (r: Option<usize>)
    requires
        i <= s@.len(),
    ensures
        match r {
            Some(j) => expect_lit(s@, i as int, lit@) == Some(j as int) && i <= j <= s@.len(),
            None => expect_lit(s@, i as int, lit@) is None,
        },
{
    let llen = lit.unicode_len();
    let slen = s.unicode_len();
    if llen > slen - i {
        return None;
    }
    let piece = s.substring_char(i, i + llen);
    if str_eq(piece, lit) {
        Some(i + llen)
    } else {
        None
    }
}

/// The body of a JSON string from a position inside the quotes: the
/// unescaped characters and the position after the closing quote. Only the
/// quote and backslash escapes are admitted.
pub open spec fn parse_str_body(s: Seq<char>, i: int) -> Option<(Seq<char>, int)>
    decreases s.len() - i,
{
    if i < 0 || i >= s.len() {
        None
    } else if s[i] == '"' {
        Some((Seq::empty(), i + 1))
    } else if s[i] == '\\' {
        if i + 1 < s.len() && (s[i + 1] == '"' || s[i + 1] == '\\') {
            match parse_str_body(s, i + 2) {
                Some((rest, j)) => Some((seq![s[i + 1]] + rest, j)),
                None => None,
            }
        } else {
            None
        }
    } else {
        match parse_str_body(s, i + 1) {
            Some((rest, j)) => Some((seq![s[i]] + rest, j)),
            None => None,
        }
    }
}

/// A JSON string literal at a position: its unescaped content and the
/// position after the closing quote.
pub open spec fn parse_jstr(s: Seq<char>, i: int) -> Option<(Seq<char>, int)> {
    if 0 <= i < s.len() && s[i] == '"' {
        parse_str_body(s, i + 1)
    } else {
        None
    }
}

fn parse_str_body_exec(s: &str, i: usize) -> (r: Option<(String, usize)>)
    requires
        i <= s@.len(),
    ensures
        match r {
            Some(p) => parse_str_body(s@, i as int) == Some((p.0@, p.1 as int)) && i < p.1
                <= s@.len(),
            None => parse_str_body(s@, i as int) is None,
        },
    decreases s@.len() - i,
{
    let len = s.unicode_len();
    if i >= len {
        return None;
    }
    let c = s.get_char(i);
    if c == '"' {
        Some((String::new(), i + 1))
    } else if c == '\\' {
        if i + 1 < len {
            let c2 = s.get_char(i + 1);
            if c2 == '"' || c2 == '\\' {
                match parse_str_body_exec(s, i + 2) {
                    Some(p) => {
                        let mut out = s.substring_char(i + 1, i + 2).to_owned();
                        out.append(p.0.as_str());
                        proof {
                            assert(out@ =~= seq![s@[i as int + 1]] + p.0@);
                        }
                        Some((out, p.1))
                    },
                    None => None,
                }
            } else {
                None
            }
        } else {
            None
        }
    } else {
        match parse_str_body_exec(s, i + 1) {
            Some(p) => {
                let mut out = s.substring_char(i, i + 1).to_owned();
                out.append(p.0.as_str());
                proof {
                    assert(out@ =~= seq![s@[i as int]] + p.0@);
                }
                Some((out, p.1))
            },
            None => None,
        }
    }
}

fn parse_jstr_exec(s: &str, i: usize) -> (r: Option<(String, usize)>)
    requires
        i <= s@.len(),
    ensures
        match r {
            Some(p) => parse_jstr(s@, i as int) == Some((p.0@, p.1 as int)) && i < p.1 <= s@.len(),
            None => parse_jstr(s@, i as int) is None,
        },
{
    let len = s.unicode_len();
    if i < len && s.get_char(i) == '"' {
        parse_str_body_exec(s, i + 1)
    } else {
        None
    }
}

/// The numeric value of a decimal digit character, when it is one.
pub open spec fn digit_of(c: char) -> Option<int> {
    if c == '0' {
        Some(0)
    } else if c == '1' {
        Some(1)
    } else if c == '2' {
        Some(2)
    } else if c == '3' {
        Some(3)
    } else if c == '4' {
        Some(4)
    } else if c == '5' {
        Some(5)
    } else if c == '6' {
        Some(6)
    } else if c == '7' {
        Some(7)
    } else if c == '8' {
        Some(8)
    } else if c == '9' {
        Some(9)
    } else {
        None
    }
}

/// A run of decimal digits folded onto an accumulator, refused beyond the
/// magnitude bound of a 64-bit signed value.
pub open spec fn parse_digits(s: Seq<char>, i: int, acc: int) -> Option<(int, int)>
    decreases s.len() - i,
{
    if i < 0 || i >= s.len() {
        Some((acc, i))
    } else {
        match digit_of(s[i]) {
            None => Some((acc, i)),
            Some(d) => if acc * 10 + d > 0x8000000000000000 {
                None
            } else {
                parse_digits(s, i + 1, acc * 10 + d)
            },
        }
    }
}

/// A JSON integer at a position: its value within the 64-bit signed range
/// and the position after its digits; at least one digit is demanded.
pub open spec fn parse_jint(s: Seq<char>, i: int) -> Option<(int, int)> {
    if 0 <= i < s.len() && s[i] == '-' {
        if i + 1 < s.len() && digit_of(s[i + 1]) is Some {
            match parse_digits(s, i + 1, 0) {
                Some((m, j)) => if m <= 0x8000000000000000 {
                    Some((-m, j))
                } else {
                    None
                },
                None => None,
            }
        } else {
            None
        }
    } else if 0 <= i < s.len() && digit_of(s[i]) is Some {
        match parse_digits(s, i, 0) {
            Some((m, j)) => if m <= 0x7fffffffffffffff {
                Some((m, j))
            } else {
                None
            },
            None => None,
        }
    } else {
        None
    }
}

proof fn lemma_parse_digits_bounds(s: Seq<char>, i: int, acc: int)
    requires
        0 <= i <= s.len(),
    ensures
        match parse_digits(s, i, acc) {
            Some(p) => i <= p.1 <= s.len(),
            None => true,
        },
    decreases s.len() - i,
{
    if i < s.len() {
        match digit_of(s[i]) {
            Some(d) => {
                if acc * 10 + d <= 0x8000000000000000 {
                    lemma_parse_digits_bounds(s, i + 1, acc * 10 + d);
                }
            },
            None => {},
        }
    }
}

proof fn lemma_parse_digits_strict(s: Seq<char>, i: int)
    requires
        0 <= i < s.len(),
        digit_of(s[i]) is Some,
    ensures
        match parse_digits(s, i, 0) {
            Some(p) => i < p.1 <= s.len(),
            None => true,
        },
{
    match digit_of(s[i]) {
        Some(d) => {
            assert(parse_digits(s, i, 0) == parse_digits(s, i + 1, d));
            lemma_parse_digits_bounds(s, i + 1, d);
        },
        None => {},
    }
}

fn digit_of_exec(c: char) -> (r: Option<u64>)
    ensures
        match r {
            Some(d) => digit_of(c) == Some(d as int) && d < 10,
            None => digit_of(c) is None,
        },
{
    match c {
        '0' => Some(0),
        '1' => Some(1),
        '2' => Some(2),
        '3' => Some(3),
        '4' => Some(4),
        '5' => Some(5),
        '6' => Some(6),
        '7' => Some(7),
        '8' => Some(8),
        '9' => Some(9),
        _ => None,
    }
}

fn parse_digits_exec(s: &str, i: usize, acc: u64) -> (r: Option<(u64, usize)>)
    requires
        i <= s@.len(),
        acc <= 0x8000000000000000,
    ensures
        match r {
            Some(p) => parse_digits(s@, i as int, acc as int) == Some((p.0 as int, p.1 as int))
                && i <= p.1 <= s@.len() && p.0 <= 0x8000000000000000,
            None => parse_digits(s@, i as int, acc as int) is None,
        },
    decreases s@.len() - i,
{
    let len = s.unicode_len();
    if i >= len {
        return Some((acc, i));
    }
    match digit_of_exec(s.get_char(i)) {
        None => Some((acc, i)),
        Some(d) => {
            let wide: u128 = acc as u128 * 10 + d as u128;
            if wide > 0x8000000000000000 {
                None
            } else {
                parse_digits_exec(s, i + 1, wide as u64)
            }
        },
    }
}

fn parse_jint_exec(s: &str, i: usize) -> (r: Option<(i64, usize)>)
    requires
        i <= s@.len(),
    ensures
        match r {
            Some(p) => parse_jint(s@, i as int) == Some((p.0 as int, p.1 as int)) && i < p.1
                <= s@.len(),
            None => parse_jint(s@, i as int) is None,
        },
{
    let len = s.unicode_len();
    if i < len && s.get_char(i) == '-' {
        if i + 1 < len && digit_of_exec(s.get_char(i + 1)).is_some() {
            match parse_digits_exec(s, i + 1, 0) {
                Some(p) => {
                    let v: i64 = if p.0 == 0x8000000000000000 {
                        i64::MIN
                    } else {
                        -(p.0 as i64)
                    };
                    Some((v, p.1))
                },
                None => None,
            }
        } else {
            None
        }
    } else if i < len && digit_of_exec(s.get_char(i)).is_some() {
        proof {
            lemma_parse_digits_strict(s@, i as int);
        }
        match parse_digits_exec(s, i, 0) {
            Some(p) => {
                if p.0 > 0x7fffffffffffffff {
                    None
                } else {
                    Some((p.0 as i64, p.1))
                }
            },
            None => None,
        }
    } else {
        None
    }
}

/// The members of a flat string-to-string object, from the position after
/// the opening brace to the position after the closing one.
pub open spec fn parse_members(s: Seq<char>, i: int) -> Option<(Seq<(Seq<char>, Seq<char>)>, int)>
    decreases s.len() - i,
{
    match parse_jstr(s, i) {
        None => None,
        Some((k, j)) => match expect_lit(s, j, ":"@) {
            None => None,
            Some(j2) => match parse_jstr(s, j2) {
                None => None,
                Some((v, j3)) => if j3 < s.len() && s[j3] == ',' {
                    if i < j3 + 1 {
                        match parse_members(s, j3 + 1) {
                            None => None,
                            Some((rest, j4)) => Some((seq![(k, v)] + rest, j4)),
                        }
                    } else {
                        None
                    }
                } else if j3 < s.len() && s[j3] == '}' {
                    Some((seq![(k, v)], j3 + 1))
                } else {
                    None
                },
            },
        },
    }
}

/// A flat string-to-string object at a position: its pairs in order and
/// the position after the closing brace.
pub open spec fn parse_flatobj(s: Seq<char>, i: int) -> Option<(Seq<(Seq<char>, Seq<char>)>, int)> {
    match expect_lit(s, i, "{"@) {
        None => None,
        Some(j) => if j < s.len() && s[j] == '}' {
            Some((Seq::empty(), j + 1))
        } else {
            parse_members(s, j)
        },
    }
}

fn parse_members_exec(s: &str, i: usize) -> (r: Option<(Vec<(String, String)>, usize)>)
    requires
        i <= s@.len(),
    ensures
        match r {
            Some(p) => parse_members(s@, i as int) == Some(
                (p.0@.map_values(|q: (String, String)| (q.0@, q.1@)), p.1 as int),
            ) && i < p.1 <= s@.len(),
            None => parse_members(s@, i as int) is None,
        },
    decreases s@.len() - i,
{
    let len = s.unicode_len();
    match parse_jstr_exec(s, i) {
        None => None,
        Some(kp) => match expect_lit_exec(s, kp.1, ":") {
            None => None,
            Some(j2) => match parse_jstr_exec(s, j2) {
                None => None,
                Some(vp) => {
                    let j3 = vp.1;
                    if j3 < len && s.get_char(j3) == ',' {
                        if i < j3 + 1 {
                            match parse_members_exec(s, j3 + 1) {
                                None => None,
                                Some(restp) => {
                                    let mut out = restp.0;
                                    out.insert(0, (kp.0, vp.0));
                                    proof {
                                        assert(out@.map_values(
                                            |q: (String, String)| (q.0@, q.1@),
                                        ) =~= seq![(kp.0@, vp.0@)] + restp.0@.map_values(
                                            |q: (String, String)| (q.0@, q.1@),
                                        ));
                                    }
                                    Some((out, restp.1))
                                },
                            }
                        } else {
                            None
                        }
                    } else if j3 < len && s.get_char(j3) == '}' {
                        let mut out: Vec<(String, String)> = Vec::new();
                        out.push((kp.0, vp.0));
                        proof {
                            assert(out@.map_values(|q: (String, String)| (q.0@, q.1@)) =~= seq![
                                (kp.0@, vp.0@),
                            ]);
                        }
                        Some((out, j3 + 1))
                    } else {
                        None
                    }
                },
            },
        },
    }
}

fn parse_flatobj_exec(s: &str, i: usize) -> (r: Option<(Vec<(String, String)>, usize)>)
    requires
        i <= s@.len(),
    ensures
        match r {
            Some(p) => parse_flatobj(s@, i as int) == Some(
                (p.0@.map_values(|q: (String, String)| (q.0@, q.1@)), p.1 as int),
            ) && i <= p.1 <= s@.len(),
            None => parse_flatobj(s@, i as int) is None,
        },
{
    let len = s.unicode_len();
    match expect_lit_exec(s, i, "{") {
        None => None,
        Some(j) => {
            if j < len && s.get_char(j) == '}' {
                let out: Vec<(String, String)> = Vec::new();
                proof {
                    assert(out@.map_values(|q: (String, String)| (q.0@, q.1@)) =~= Seq::<
                        (Seq<char>, Seq<char>),
                    >::empty());
                }
                Some((out, j + 1))
            } else {
                parse_members_exec(s, j)
            }
        },
    }
}

/// One query item: its sequence name, optional topic path and optional
/// window, and the position after the closing brace.
pub open spec fn parse_qitem(s: Seq<char>, i: int) -> Option<
    ((Seq<char>, Option<Seq<char>>, Option<(int, int)>), int),
> {
    match expect_lit(s, i, "{\"sequence\":"@) {
        None => None,
        Some(j) => match parse_jstr(s, j) {
            None => None,
            Some((sq, j2)) => if j2 < s.len() && s[j2] == '}' {
                Some(((sq, None, None), j2 + 1))
            } else {
                match expect_lit(s, j2, ",\"topic\":"@) {
                    None => None,
                    Some(j3) => match parse_jstr(s, j3) {
                        None => None,
                        Some((tp, j4)) => if j4 < s.len() && s[j4] == '}' {
                            Some(((sq, Some(tp), None), j4 + 1))
                        } else {
                            match expect_lit(s, j4, ",\"timestamp_range\":["@) {
                                None => None,
                                Some(j5) => match parse_jint(s, j5) {
                                    None => None,
                                    Some((a, j6)) => match expect_lit(s, j6, ","@) {
                                        None => None,
                                        Some(j7) => match parse_jint(s, j7) {
                                            None => None,
                                            Some((b, j8)) => match expect_lit(s, j8, "]}"@) {
                                                None => None,
                                                Some(j9) => Some(
                                                    ((sq, Some(tp), Some((a, b))), j9),
                                                ),
                                            },
                                        },
                                    },
                                },
                            }
                        },
                    },
                }
            },
        },
    }
}

/// A comma-separated run of query items up to and including the closing
/// bracket.
pub open spec fn parse_qitems(s: Seq<char>, i: int) -> Option<
    (Seq<(Seq<char>, Option<Seq<char>>, Option<(int, int)>)>, int),
>
    decreases s.len() - i,
{
    match parse_qitem(s, i) {
        None => None,
        Some((item, j)) => if j < s.len() && s[j] == ',' {
            if i < j + 1 {
                match parse_qitems(s, j + 1) {
                    None => None,
                    Some((rest, j2)) => Some((seq![item] + rest, j2)),
                }
            } else {
                None
            }
        } else if j < s.len() && s[j] == ']' {
            Some((seq![item], j + 1))
        } else {
            None
        },
    }
}

/// The view of one decoded query specification, as the parser produced it.
pub open spec fn qspec_parsed(q: crate::query::QuerySpec) -> (
    Seq<char>,
    Option<Seq<char>>,
    Option<(int, int)>,
) {
    (
        q.sequence@,
        match q.topic {
            Some(t) => Some(t@),
            None => None,
        },
        match q.range {
            Some(tr) => Some((tr.start as int, tr.end as int)),
            None => None,
        },
    )
}

fn parse_qitem_exec(s: &str, i: usize) -> (r: Option<(crate::query::QuerySpec, usize)>)
    requires
        i <= s@.len(),
    ensures
        match r {
            Some(p) => parse_qitem(s@, i as int) == Some((qspec_parsed(p.0), p.1 as int)) && i
                <= p.1 <= s@.len(),
            None => parse_qitem(s@, i as int) is None,
        },
{
    let len = s.unicode_len();
    match expect_lit_exec(s, i, "{\"sequence\":") {
        None => None,
        Some(j) => match parse_jstr_exec(s, j) {
            None => None,
            Some(sqp) => {
                let j2 = sqp.1;
                if j2 < len && s.get_char(j2) == '}' {
                    Some(
                        (
                            crate::query::QuerySpec { sequence: sqp.0, topic: None, range: None },
                            j2 + 1,
                        ),
                    )
                } else {
                    match expect_lit_exec(s, j2, ",\"topic\":") {
                        None => None,
                        Some(j3) => match parse_jstr_exec(s, j3) {
                            None => None,
                            Some(tpp) => {
                                let j4 = tpp.1;
                                if j4 < len && s.get_char(j4) == '}' {
                                    Some(
                                        (
                                            crate::query::QuerySpec {
                                                sequence: sqp.0,
                                                topic: Some(tpp.0),
                                                range: None,
                                            },
                                            j4 + 1,
                                        ),
                                    )
                                } else {
                                    match expect_lit_exec(s, j4, ",\"timestamp_range\":[") {
                                        None => None,
                                        Some(j5) => match parse_jint_exec(s, j5) {
                                            None => None,
                                            Some(ap) => match expect_lit_exec(s, ap.1, ",") {
                                                None => None,
                                                Some(j7) => match parse_jint_exec(s, j7) {
                                                    None => None,
                                                    Some(bp) => match expect_lit_exec(
                                                        s,
                                                        bp.1,
                                                        "]}",
                                                    ) {
                                                        None => None,
                                                        Some(j9) => Some(
                                                            (
                                                                crate::query::QuerySpec {
                                                                    sequence: sqp.0,
                                                                    topic: Some(tpp.0),
                                                                    range: Some(
                                                                        crate::resource::TimestampRange {
                                                                            start: ap.0,
                                                                            end: bp.0,
                                                                        },
                                                                    ),
                                                                },
                                                                j9,
                                                            ),
                                                        ),
                                                    },
                                                },
                                            },
                                        },
                                    }
                                }
                            },
                        },
                    }
                }
            },
        },
    }
}

fn parse_qitems_exec(s: &str, i: usize) -> (r: Option<(Vec<crate::query::QuerySpec>, usize)>)
    requires
        i <= s@.len(),
    ensures
        match r {
            Some(p) => parse_qitems(s@, i as int) == Some(
                (p.0@.map_values(|q: crate::query::QuerySpec| qspec_parsed(q)), p.1 as int),
            ) && i <= p.1 <= s@.len(),
            None => parse_qitems(s@, i as int) is None,
        },
    decreases s@.len() - i,
{
    let len = s.unicode_len();
    match parse_qitem_exec(s, i) {
        None => None,
        Some(itp) => {
            let j = itp.1;
            if j < len && s.get_char(j) == ',' {
                if i < j + 1 {
                    match parse_qitems_exec(s, j + 1) {
                        None => None,
                        Some(restp) => {
                            let mut out = restp.0;
                            out.insert(0, itp.0);
                            proof {
                                assert(out@.map_values(
                                    |q: crate::query::QuerySpec| qspec_parsed(q),
                                ) =~= seq![qspec_parsed(itp.0)] + restp.0@.map_values(
                                    |q: crate::query::QuerySpec| qspec_parsed(q),
                                ));
                            }
                            Some((out, restp.1))
                        },
                    }
                } else {
                    None
                }
            } else if j < len && s.get_char(j) == ']' {
                let mut out: Vec<crate::query::QuerySpec> = Vec::new();
                out.push(itp.0);
                proof {
                    assert(out@.map_values(|q: crate::query::QuerySpec| qspec_parsed(q)) =~= seq![
                        qspec_parsed(itp.0),
                    ]);
                }
                Some((out, j + 1))
            } else {
                None
            }
        },
    }
}

/// The decoded body of a `sequence_create` call: the sequence name and its
/// metadata pairs; the whole input must be consumed.
pub open spec fn parse_sequence_create(s: Seq<char>) -> Option<
    (Seq<char>, Seq<(Seq<char>, Seq<char>)>),
> {
    match expect_lit(s, 0, "{\"name\":"@) {
        None => None,
        Some(j) => match parse_jstr(s, j) {
            None => None,
            Some((nm, j2)) => if expect_lit(s, j2, "}"@) == Some(s.len() as int) {
                Some((nm, Seq::empty()))
            } else {
                match expect_lit(s, j2, ",\"user_metadata\":"@) {
                    None => None,
                    Some(j3) => match parse_flatobj(s, j3) {
                        None => None,
                        Some((md, j4)) => if expect_lit(s, j4, "}"@) == Some(s.len() as int) {
                            Some((nm, md))
                        } else {
                            None
                        },
                    },
                }
            },
        },
    }
}

/// The decoded body of a `topic_create` call: sequence, topic path,
/// serialization format, ontology tag and metadata pairs; the whole input
/// must be consumed.
pub open spec fn parse_topic_create(s: Seq<char>) -> Option<
    ((Seq<char>, Seq<char>, Seq<char>, Seq<char>), Seq<(Seq<char>, Seq<char>)>),
> {
    match expect_lit(s, 0, "{\"sequence\":"@) {
        None => None,
        Some(j) => match parse_jstr(s, j) {
            None => None,
            Some((sq, j2)) => match expect_lit(s, j2, ",\"topic\":"@) {
                None => None,
                Some(j3) => match parse_jstr(s, j3) {
                    None => None,
                    Some((tp, j4)) => match expect_lit(s, j4, ",\"serialization_format\":"@) {
                        None => None,
                        Some(j5) => match parse_jstr(s, j5) {
                            None => None,
                            Some((sf, j6)) => match expect_lit(s, j6, ",\"ontology_tag\":"@) {
                                None => None,
                                Some(j7) => match parse_jstr(s, j7) {
                                    None => None,
                                    Some((ot, j8)) => if expect_lit(s, j8, "}"@) == Some(
                                        s.len() as int,
                                    ) {
                                        Some(((sq, tp, sf, ot), Seq::empty()))
                                    } else {
                                        match expect_lit(s, j8, ",\"user_metadata\":"@) {
                                            None => None,
                                            Some(j9) => match parse_flatobj(s, j9) {
                                                None => None,
                                                Some((md, j10)) => if expect_lit(s, j10, "}"@)
                                                    == Some(s.len() as int) {
                                                    Some(((sq, tp, sf, ot), md))
                                                } else {
                                                    None
                                                },
                                            },
                                        }
                                    },
                                },
                            },
                        },
                    },
                },
            },
        },
    }
}

/// The decoded body of a `query` call: its items in order; the whole input
/// must be consumed.
pub open spec fn parse_query(s: Seq<char>) -> Option<
    Seq<(Seq<char>, Option<Seq<char>>, Option<(int, int)>)>,
> {
    match expect_lit(s, 0, "{\"items\":["@) {
        None => None,
        Some(j) => if j < s.len() && s[j] == ']' {
            if expect_lit(s, j + 1, "}"@) == Some(s.len() as int) {
                Some(Seq::empty())
            } else {
                None
            }
        } else {
            match parse_qitems(s, j) {
                None => None,
                Some((items, j2)) => if expect_lit(s, j2, "}"@) == Some(s.len() as int) {
                    Some(items)
                } else {
                    None
                },
            }
        },
    }
}

/// Whether a body with no fields is acceptable: empty, or an empty object.
pub open spec fn empty_body_ok(s: Seq<char>) -> bool {
    s == Seq::<char>::empty() || s == "{}"@
}

/// Whether a call name has a registered handler.
pub open spec fn known_action(name: Seq<char>) -> bool {
    ||| name == "sequence_create"@
    ||| name == "topic_create"@
    ||| name == "query"@
    ||| name == "notify_list"@
    ||| name == "layer_list"@
}

/// One validated, typed remote call.
pub enum ActionRequest {
    /// Create a top-level sequence.
    SequenceCreate {
        /// The sequence name.
        name: String,
        /// Opaque user metadata pairs.
        metadata: Vec<(String, String)>,
    },
    /// Create a topic under a live sequence.
    TopicCreate {
        /// The owning sequence's name.
        sequence: String,
        /// The topic path under the sequence.
        topic: String,
        /// Tag of the payload serialization format.
        serialization_format: String,
        /// Tag classifying the channel's semantic kind.
        ontology_tag: String,
        /// Opaque user metadata pairs.
        metadata: Vec<(String, String)>,
    },
    /// Resolve a run of locator specifications.
    Query {
        /// The specifications, in request order.
        specs: Vec<crate::query::QuerySpec>,
    },
    /// List the notification log.
    NotifyList,
    /// List the layer catalog.
    LayerList,
}

impl ActionRequest {
    /// Validates and deserializes an opaque call into a typed request.
    ///
    /// Bodies are read in canonical form: fields in their declared order
    /// and no inter-token whitespace, the whole input consumed.
    ///
    /// Fails with `UnknownAction` when the call name has no registered
    /// handler, and with `MalformedBody` when the body does not parse
    /// against the named action's schema.
    pub fn try_new(name: &str, body: &str) -> (r: Result<ActionRequest, crate::errors::EngineError>)
        ensures
            match r {
                Ok(req) => known_action(name@) && match req {
                    ActionRequest::SequenceCreate { name: nm, metadata } => name@
                        == "sequence_create"@ && parse_sequence_create(body@) == Some(
                        (nm@, metadata@.map_values(|q: (String, String)| (q.0@, q.1@))),
                    ),
                    ActionRequest::TopicCreate {
                        sequence,
                        topic,
                        serialization_format,
                        ontology_tag,
                        metadata,
                    } => name@ == "topic_create"@ && parse_topic_create(body@) == Some(
                        (
                            (sequence@, topic@, serialization_format@, ontology_tag@),
                            metadata@.map_values(|q: (String, String)| (q.0@, q.1@)),
                        ),
                    ),
                    ActionRequest::Query { specs } => name@ == "query"@ && parse_query(body@)
                        == Some(
                        specs@.map_values(|q: crate::query::QuerySpec| qspec_parsed(q)),
                    ),
                    ActionRequest::NotifyList => name@ == "notify_list"@ && empty_body_ok(body@),
                    ActionRequest::LayerList => name@ == "layer_list"@ && empty_body_ok(body@),
                },
                Err(e) => if !known_action(name@) {
                    e == crate::errors::EngineError::UnknownAction
                } else {
                    e == crate::errors::EngineError::MalformedBody && (name@ == "sequence_create"@
                        ==> parse_sequence_create(body@) is None) && (name@ == "topic_create"@
                        ==> parse_topic_create(body@) is None) && (name@ == "query"@
                        ==> parse_query(body@) is None) && (name@ == "notify_list"@
                        ==> !empty_body_ok(body@)) && (name@ == "layer_list"@ ==> !empty_body_ok(
                        body@,
                    ))
                },
            },
    {
        proof {
            reveal_strlit("sequence_create");
            reveal_strlit("topic_create");
            reveal_strlit("query");
            reveal_strlit("notify_list");
            reveal_strlit("layer_list");
        }
        if str_eq(name, "sequence_create") {
            match Self::parse_sequence_create_exec(body) {
                None => {
                    proof {
                        reveal_strlit("sequence_create");
                        reveal_strlit("topic_create");
                        reveal_strlit("query");
                        reveal_strlit("notify_list");
                        reveal_strlit("layer_list");
                        assert("sequence_create"@.len() == 15);
                        assert("topic_create"@.len() == 12);
                        assert("query"@.len() == 5);
                        assert("notify_list"@.len() == 11);
                        assert("layer_list"@.len() == 10);
                        assert(name@ != "topic_create"@);
                        assert(name@ != "query"@);
                        assert(name@ != "notify_list"@);
                        assert(name@ != "layer_list"@);
                    }
                    Err(crate::errors::EngineError::MalformedBody)
                },
                Some(p) => Ok(ActionRequest::SequenceCreate { name: p.0, metadata: p.1 }),
            }
        } else if str_eq(name, "topic_create") {
            match Self::parse_topic_create_exec(body) {
                None => {
                    proof {
                        reveal_strlit("sequence_create");
                        reveal_strlit("topic_create");
                        reveal_strlit("query");
                        reveal_strlit("notify_list");
                        reveal_strlit("layer_list");
                        assert("sequence_create"@.len() == 15);
                        assert("topic_create"@.len() == 12);
                        assert("query"@.len() == 5);
                        assert("notify_list"@.len() == 11);
                        assert("layer_list"@.len() == 10);
                        assert(name@ != "query"@);
                        assert(name@ != "notify_list"@);
                        assert(name@ != "layer_list"@);
                    }
                    Err(crate::errors::EngineError::MalformedBody)
                },
                Some(p) => Ok(
                    ActionRequest::TopicCreate {
                        sequence: p.0,
                        topic: p.1,
                        serialization_format: p.2,
                        ontology_tag: p.3,
                        metadata: p.4,
                    },
                ),
            }
        } else if str_eq(name, "query") {
            match Self::parse_query_exec(body) {
                None => {
                    proof {
                        reveal_strlit("sequence_create");
                        reveal_strlit("topic_create");
                        reveal_strlit("query");
                        reveal_strlit("notify_list");
                        reveal_strlit("layer_list");
                        assert("sequence_create"@.len() == 15);
                        assert("topic_create"@.len() == 12);
                        assert("query"@.len() == 5);
                        assert("notify_list"@.len() == 11);
                        assert("layer_list"@.len() == 10);
                        assert(name@ != "notify_list"@);
                        assert(name@ != "layer_list"@);
                    }
                    Err(crate::errors::EngineError::MalformedBody)
                },
                Some(specs) => Ok(ActionRequest::Query { specs }),
            }
        } else if str_eq(name, "notify_list") {
            if body.is_empty() || str_eq(body, "{}") {
                proof {
                    if body@.len() == 0 {
                        assert(body@ =~= Seq::<char>::empty());
                    }
                }
                Ok(ActionRequest::NotifyList)
            } else {
                proof {
                    reveal_strlit("notify_list");
                    reveal_strlit("layer_list");
                    assert("notify_list"@.len() == 11);
                    assert("layer_list"@.len() == 10);
                    assert(Seq::<char>::empty().len() == 0);
                    assert(name@ != "layer_list"@);
                }
                Err(crate::errors::EngineError::MalformedBody)
            }
        } else if str_eq(name, "layer_list") {
            if body.is_empty() || str_eq(body, "{}") {
                proof {
                    if body@.len() == 0 {
                        assert(body@ =~= Seq::<char>::empty());
                    }
                }
                Ok(ActionRequest::LayerList)
            } else {
                proof {
                    assert(Seq::<char>::empty().len() == 0);
                }
                Err(crate::errors::EngineError::MalformedBody)
            }
        } else {
            proof {
                assert(!known_action(name@));
            }
            Err(crate::errors::EngineError::UnknownAction)
        }
    }

    fn parse_sequence_create_exec(s: &str) -> (r: Option<(String, Vec<(String, String)>)>)
        ensures
            match r {
                Some(p) => parse_sequence_create(s@) == Some(
                    (p.0@, p.1@.map_values(|q: (String, String)| (q.0@, q.1@))),
                ),
                None => parse_sequence_create(s@) is None,
            },
    {
        let len = s.unicode_len();
        match expect_lit_exec(s, 0, "{\"name\":") {
            None => None,
            Some(j) => match parse_jstr_exec(s, j) {
                None => None,
                Some(nmp) => {
                    let j2 = nmp.1;
                    match expect_lit_exec(s, j2, "}") {
                        Some(j3) if j3 == len => {
                            let md: Vec<(String, String)> = Vec::new();
                            proof {
                                assert(md@.map_values(|q: (String, String)| (q.0@, q.1@)) =~= Seq::<
                                    (Seq<char>, Seq<char>),
                                >::empty());
                            }
                            Some((nmp.0, md))
                        },
                        _ => match expect_lit_exec(s, j2, ",\"user_metadata\":") {
                            None => None,
                            Some(j3) => match parse_flatobj_exec(s, j3) {
                                None => None,
                                Some(mdp) => match expect_lit_exec(s, mdp.1, "}") {
                                    Some(j5) if j5 == len => Some((nmp.0, mdp.0)),
                                    _ => None,
                                },
                            },
                        },
                    }
                },
            },
        }
    }

    fn parse_topic_create_exec(s: &str) -> (r: Option<
        (String, String, String, String, Vec<(String, String)>),
    >)
        ensures
            match r {
                Some(p) => parse_topic_create(s@) == Some(
                    (
                        (p.0@, p.1@, p.2@, p.3@),
                        p.4@.map_values(|q: (String, String)| (q.0@, q.1@)),
                    ),
                ),
                None => parse_topic_create(s@) is None,
            },
    {
        let len = s.unicode_len();
        match expect_lit_exec(s, 0, "{\"sequence\":") {
            None => None,
            Some(j) => match parse_jstr_exec(s, j) {
                None => None,
                Some(sqp) => match expect_lit_exec(s, sqp.1, ",\"topic\":") {
                    None => None,
                    Some(j3) => match parse_jstr_exec(s, j3) {
                        None => None,
                        Some(tpp) => match expect_lit_exec(s, tpp.1, ",\"serialization_format\":") {
                            None => None,
                            Some(j5) => match parse_jstr_exec(s, j5) {
                                None => None,
                                Some(sfp) => match expect_lit_exec(s, sfp.1, ",\"ontology_tag\":") {
                                    None => None,
                                    Some(j7) => match parse_jstr_exec(s, j7) {
                                        None => None,
                                        Some(otp) => {
                                            let j8 = otp.1;
                                            match expect_lit_exec(s, j8, "}") {
                                                Some(j9) if j9 == len => {
                                                    let md: Vec<(String, String)> = Vec::new();
                                                    proof {
                                                        assert(md@.map_values(
                                                            |q: (String, String)| (q.0@, q.1@),
                                                        ) =~= Seq::<(Seq<char>, Seq<char>)>::empty());
                                                    }
                                                    Some((sqp.0, tpp.0, sfp.0, otp.0, md))
                                                },
                                                _ => match expect_lit_exec(
                                                    s,
                                                    j8,
                                                    ",\"user_metadata\":",
                                                ) {
                                                    None => None,
                                                    Some(j9) => match parse_flatobj_exec(s, j9) {
                                                        None => None,
                                                        Some(mdp) => match expect_lit_exec(
                                                            s,
                                                            mdp.1,
                                                            "}",
                                                        ) {
                                                            Some(j11) if j11 == len => Some(
                                                                (
                                                                    sqp.0,
                                                                    tpp.0,
                                                                    sfp.0,
                                                                    otp.0,
                                                                    mdp.0,
                                                                ),
                                                            ),
                                                            _ => None,
                                                        },
                                                    },
                                                },
                                            }
                                        },
                                    },
                                },
                            },
                        },
                    },
                },
            },
        }
    }

    fn parse_query_exec(s: &str) -> (r: Option<Vec<crate::query::QuerySpec>>)
        ensures
            match r {
                Some(specs) => parse_query(s@) == Some(
                    specs@.map_values(|q: crate::query::QuerySpec| qspec_parsed(q)),
                ),
                None => parse_query(s@) is None,
            },
    {
        let len = s.unicode_len();
        match expect_lit_exec(s, 0, "{\"items\":[") {
            None => None,
            Some(j) => {
                if j < len && s.get_char(j) == ']' {
                    match expect_lit_exec(s, j + 1, "}") {
                        Some(j2) if j2 == len => {
                            let out: Vec<crate::query::QuerySpec> = Vec::new();
                            proof {
                                assert(out@.map_values(
                                    |q: crate::query::QuerySpec| qspec_parsed(q),
                                ) =~= Seq::<(Seq<char>, Option<Seq<char>>, Option<(int, int)>)>::empty());
                            }
                            Some(out)
                        },
                        _ => None,
                    }
                } else {
                    match parse_qitems_exec(s, j) {
                        None => None,
                        Some(itemsp) => match expect_lit_exec(s, itemsp.1, "}") {
                            Some(j2) if j2 == len => Some(itemsp.0),
                            _ => None,
                        },
                    }
                }
            },
        }
    }
}

proof fn lemma_action_names_distinct()
    ensures
        "sequence_create"@ != "topic_create"@,
        "sequence_create"@ != "query"@,
        "sequence_create"@ != "notify_list"@,
        "sequence_create"@ != "layer_list"@,
        "topic_create"@ != "query"@,
        "topic_create"@ != "notify_list"@,
        "topic_create"@ != "layer_list"@,
        "query"@ != "notify_list"@,
        "query"@ != "layer_list"@,
        "notify_list"@ != "layer_list"@,
{
    reveal_strlit("sequence_create");
    reveal_strlit("topic_create");
    reveal_strlit("query");
    reveal_strlit("notify_list");
    reveal_strlit("layer_list");
    assert("sequence_create"@.len() == 15);
    assert("topic_create"@.len() == 12);
    assert("query"@.len() == 5);
    assert("notify_list"@.len() == 11);
    assert("layer_list"@.len() == 10);
}

/// The parsed views of a run of decoded query specifications, in order.
pub open spec fn qspecs_parsed(specs: Seq<crate::query::QuerySpec>) -> Seq<
    (Seq<char>, Option<Seq<char>>, Option<(int, int)>),
> {
    specs.map_values(|q: crate::query::QuerySpec| qspec_parsed(q))
}

/// The JSON body of one notification record, from the engine record
/// itself.
pub open spec fn notify_json_of(n: crate::resource::Notify) -> Seq<char> {
    crate::marshal::notify_item_json(
        n.target@,
        n.notify_type@,
        match n.msg {
            Some(m) => m@,
            None => Seq::<char>::empty(),
        },
        crate::num::dec_int_of(n.created_at as int),
    )
}

/// The JSON body of a notification list response, from the engine log.
pub open spec fn notify_list_json_of(s: Seq<crate::resource::Notify>) -> Seq<char> {
    "{\"notifies\":["@ + crate::marshal::json_list(
        s.map_values(|n: crate::resource::Notify| notify_json_of(n)),
    ) + "]}"@
}

/// The JSON body of one layer record, from the engine record itself.
pub open spec fn layer_json_of(l: crate::resource::Layer) -> Seq<char> {
    crate::marshal::layer_item_json(l.locator@, l.description@)
}

/// The JSON body of a layer list response, from the engine catalog.
pub open spec fn layer_list_json_of(s: Seq<crate::resource::Layer>) -> Seq<char> {
    "{\"layers\":["@ + crate::marshal::json_list(
        s.map_values(|l: crate::resource::Layer| layer_json_of(l)),
    ) + "]}"@
}

/// The JSON body of one matched topic, from its resolved plain view.
pub open spec fn topic_entry_json_of(
    e: (Seq<char>, Option<crate::resource::TimestampRange>),
) -> Seq<char> {
    crate::marshal::query_topic_json(
        e.0,
        match e.1 {
            Some(tr) => Some((tr.start, tr.end)),
            None => None,
        },
    )
}

/// The JSON body of one sequence group, from its resolved plain view.
pub open spec fn group_json_of(
    g: (Seq<char>, Seq<(Seq<char>, Option<crate::resource::TimestampRange>)>),
) -> Seq<char> {
    "{\"sequence\":"@ + crate::marshal::json_string(g.0) + ",\"topics\":["@
        + crate::marshal::json_list(
        g.1.map_values(
            |e: (Seq<char>, Option<crate::resource::TimestampRange>)| topic_entry_json_of(e),
        ),
    ) + "]}"@
}

/// The JSON body of a query response, from the resolved groups.
pub open spec fn query_json_of(
    gs: Seq<(Seq<char>, Seq<(Seq<char>, Option<crate::resource::TimestampRange>)>)>,
) -> Seq<char> {
    "{\"items\":["@ + crate::marshal::json_list(
        gs.map_values(
            |g: (Seq<char>, Seq<(Seq<char>, Option<crate::resource::TimestampRange>)>)|
                group_json_of(g),
        ),
    ) + "]}"@
}

/// Runs one generic remote call against the engine: decodes the opaque
/// body, invokes the matching domain operation, and wraps each result in a
/// self-describing envelope. One logical call may yield zero, one or many
/// envelopes; an error leaves the engine unchanged.
#[verifier::rlimit(100)]
#[verifier::loop_isolation(false)]
pub fn do_action(
    engine: &mut crate::engine::Engine,
    name: &str,
    body: &str,
    now: i64,
) -> (r: Result<Vec<String>, crate::errors::EngineError>)
    requires
        old(engine).wf(),
    ensures
        final(engine).wf(),
        match r {
            Ok(envs) => known_action(name@) && {
                &&& name@ == "sequence_create"@ ==> {
                    let p = parse_sequence_create(body@)->0;
                    &&& parse_sequence_create(body@) is Some
                    &&& crate::engine::valid_sequence_name(p.0)
                    &&& !old(engine).has_sequence(p.0)
                    &&& final(engine).has_sequence(p.0)
                    &&& final(engine).sequences@.len() == old(engine).sequences@.len() + 1
                    &&& envs@.len() == 1
                    &&& envs@[0]@ == crate::marshal::envelope_json(
                        "sequence_create"@,
                        crate::marshal::resource_key_json(
                            crate::resource::uuid_text(old(engine).next_id as nat),
                        ),
                    )
                }
                &&& name@ == "topic_create"@ ==> {
                    let p = parse_topic_create(body@)->0;
                    &&& parse_topic_create(body@) is Some
                    &&& crate::engine::valid_topic_path(p.0.1)
                    &&& old(engine).has_sequence(p.0.0)
                    &&& !old(engine).locks@.contains_key(p.0.0)
                    &&& !old(engine).has_topic(crate::engine::topic_full_name(p.0.0, p.0.1))
                    &&& final(engine).has_topic(crate::engine::topic_full_name(p.0.0, p.0.1))
                    &&& final(engine).topics@.len() == old(engine).topics@.len() + 1
                    &&& envs@.len() == 1
                    &&& envs@[0]@ == crate::marshal::envelope_json(
                        "topic_create"@,
                        crate::marshal::resource_key_json(
                            crate::resource::uuid_text(old(engine).next_id as nat),
                        ),
                    )
                }
                &&& name@ == "query"@ ==> {
                    &&& parse_query(body@) is Some
                    &&& *final(engine) == *old(engine)
                    &&& exists|specs: Seq<crate::query::QuerySpec>|
                        {
                            &&& parse_query(body@) == Some(#[trigger] qspecs_parsed(specs))
                            &&& forall|i: int|
                                0 <= i < specs.len() ==> crate::query::spec_resolves(
                                    *old(engine),
                                    #[trigger] specs[i],
                                )
                            &&& envs@.len() == 1 && envs@[0]@ == crate::marshal::envelope_json(
                                "query"@,
                                query_json_of(crate::query::group_specs(specs)),
                            )
                        }
                }
                &&& name@ == "notify_list"@ ==> {
                    &&& empty_body_ok(body@)
                    &&& *final(engine) == *old(engine)
                    &&& envs@.len() == 1
                    &&& envs@[0]@ == crate::marshal::envelope_json(
                        "notify_list"@,
                        notify_list_json_of(old(engine).notifies@),
                    )
                }
                &&& name@ == "layer_list"@ ==> {
                    &&& empty_body_ok(body@)
                    &&& *final(engine) == *old(engine)
                    &&& envs@.len() == 1
                    &&& envs@[0]@ == crate::marshal::envelope_json(
                        "layer_list"@,
                        layer_list_json_of(old(engine).layers@),
                    )
                }
            },
            Err(e) => *final(engine) == *old(engine) && (if !known_action(name@) {
                e == crate::errors::EngineError::UnknownAction
            } else if name@ == "sequence_create"@ {
                if parse_sequence_create(body@) is None {
                    e == crate::errors::EngineError::MalformedBody
                } else {
                    let p = parse_sequence_create(body@)->0;
                    if !crate::engine::valid_sequence_name(p.0) {
                        e == crate::errors::EngineError::InvalidName
                    } else if old(engine).has_sequence(p.0) {
                        e == crate::errors::EngineError::Conflict
                    } else {
                        e == crate::errors::EngineError::Internal && old(engine).next_id
                            == u128::MAX
                    }
                }
            } else if name@ == "topic_create"@ {
                if parse_topic_create(body@) is None {
                    e == crate::errors::EngineError::MalformedBody
                } else {
                    let p = parse_topic_create(body@)->0;
                    if !crate::engine::valid_topic_path(p.0.1) {
                        e == crate::errors::EngineError::InvalidName
                    } else if !old(engine).has_sequence(p.0.0) {
                        e == crate::errors::EngineError::NotFound
                    } else if old(engine).locks@.contains_key(p.0.0) {
                        e == crate::errors::EngineError::Locked
                    } else if old(engine).has_topic(
                        crate::engine::topic_full_name(p.0.0, p.0.1),
                    ) {
                        e == crate::errors::EngineError::Conflict
                    } else {
                        e == crate::errors::EngineError::Internal && old(engine).next_id
                            == u128::MAX
                    }
                }
            } else if name@ == "query"@ {
                if parse_query(body@) is None {
                    e == crate::errors::EngineError::MalformedBody
                } else {
                    e == crate::errors::EngineError::NotFound && exists|
                        specs: Seq<crate::query::QuerySpec>,
                    |
                        {
                            &&& parse_query(body@) == Some(#[trigger] qspecs_parsed(specs))
                            &&& exists|i: int|
                                0 <= i < specs.len() && !crate::query::spec_resolves(
                                    *old(engine),
                                    specs[i],
                                )
                        }
                }
            } else {
                e == crate::errors::EngineError::MalformedBody && !empty_body_ok(body@)
            }),
        },
{
    proof {
        lemma_action_names_distinct();
    }
    let req = match ActionRequest::try_new(name, body) {
        Err(e) => {
            return Err(e);
        },
        Ok(req) => req,
    };
    match req {
        ActionRequest::SequenceCreate { name: nm, metadata } => {
            match engine.create_sequence(nm.as_str(), metadata, now) {
                Err(e) => Err(e),
                Ok(id) => {
                    let key = crate::marshal::ResourceKey::from(id);
                    let payload = key.to_json();
                    let env = crate::marshal::envelope("sequence_create", payload.as_str());
                    let mut v: Vec<String> = Vec::new();
                    v.push(env);
                    Ok(v)
                },
            }
        },
        ActionRequest::TopicCreate {
            sequence,
            topic,
            serialization_format,
            ontology_tag,
            metadata,
        } => {
            match engine.create_topic(
                sequence.as_str(),
                topic.as_str(),
                serialization_format.as_str(),
                ontology_tag.as_str(),
                metadata,
                now,
            ) {
                Err(e) => Err(e),
                Ok(id) => {
                    let key = crate::marshal::ResourceKey::from(id);
                    let payload = key.to_json();
                    let env = crate::marshal::envelope("topic_create", payload.as_str());
                    let mut v: Vec<String> = Vec::new();
                    v.push(env);
                    Ok(v)
                },
            }
        },
        ActionRequest::Query { specs } => {
            match crate::query::resolve_query(engine, &specs) {
                Err(e) => {
                    proof {
                        assert(parse_query(body@) == Some(qspecs_parsed(specs@)));
                    }
                    Err(e)
                },
                Ok(set) => {
                    let ghost gv = crate::query::groups_view(set.groups@);
                    let q = crate::marshal::Query::from(set);
                    proof {
                        assert forall|i: int|
                            0 <= i < q.items@.len() implies crate::marshal::query_items_rendered(
                            q.items@,
                        )[i] == gv.map_values(
                            |g: (
                                Seq<char>,
                                Seq<(Seq<char>, Option<crate::resource::TimestampRange>)>,
                            )| group_json_of(g),
                        )[i] by {
                            assert(crate::marshal::query_topics_rendered(q.items@[i].topics@)
                                =~= gv[i].1.map_values(
                                |e: (Seq<char>, Option<crate::resource::TimestampRange>)|
                                    topic_entry_json_of(e),
                            ));
                        }
                        assert(crate::marshal::query_items_rendered(q.items@) =~= gv.map_values(
                            |g: (
                                Seq<char>,
                                Seq<(Seq<char>, Option<crate::resource::TimestampRange>)>,
                            )| group_json_of(g),
                        ));
                    }
                    let payload = q.to_json();
                    let env = crate::marshal::envelope("query", payload.as_str());
                    let mut v: Vec<String> = Vec::new();
                    v.push(env);
                    proof {
                        assert(parse_query(body@) == Some(qspecs_parsed(specs@)));
                    }
                    Ok(v)
                },
            }
        },
        ActionRequest::NotifyList => {
            let mut items: Vec<crate::resource::Notify> = Vec::new();
            let mut i: usize = 0;
            while i < engine.notifies.len()
                invariant
                    i <= engine.notifies@.len(),
                    items@.len() == i,
                    forall|j: int|
                        0 <= j < i ==> {
                            &&& (#[trigger] items@[j]).target@ == engine.notifies@[j].target@
                            &&& items@[j].notify_type@ == engine.notifies@[j].notify_type@
                            &&& (match engine.notifies@[j].msg {
                                Some(m) => items@[j].msg is Some && items@[j].msg->0@ == m@,
                                None => items@[j].msg is None,
                            })
                            &&& items@[j].created_at == engine.notifies@[j].created_at
                        },
                decreases engine.notifies@.len() - i,
            {
                items.push(engine.notifies[i].clone());
                i += 1;
            }
            let nl = crate::marshal::NotifyList::from(items);
            proof {
                assert(crate::marshal::notify_items_rendered(nl.notifies@)
                    =~= engine.notifies@.map_values(
                    |n: crate::resource::Notify| notify_json_of(n),
                ));
            }
            let payload = nl.to_json();
            let env = crate::marshal::envelope("notify_list", payload.as_str());
            let mut v: Vec<String> = Vec::new();
            v.push(env);
            Ok(v)
        },
        ActionRequest::LayerList => {
            let mut items: Vec<crate::resource::Layer> = Vec::new();
            let mut i: usize = 0;
            while i < engine.layers.len()
                invariant
                    i <= engine.layers@.len(),
                    items@.len() == i,
                    forall|j: int|
                        0 <= j < i ==> {
                            &&& (#[trigger] items@[j]).locator@ == engine.layers@[j].locator@
                            &&& items@[j].description@ == engine.layers@[j].description@
                        },
                decreases engine.layers@.len() - i,
            {
                items.push(engine.layers[i].clone());
                i += 1;
            }
            let ll = crate::marshal::LayerList::from(items);
            proof {
                assert(crate::marshal::layer_items_rendered(ll.layers@)
                    =~= engine.layers@.map_values(|l: crate::resource::Layer| layer_json_of(l)));
            }
            let payload = ll.to_json();
            let env = crate::marshal::envelope("layer_list", payload.as_str());
            let mut v: Vec<String> = Vec::new();
            v.push(env);
            Ok(v)
        },
    }
}

} // verus!
