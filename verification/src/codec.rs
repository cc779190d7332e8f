//! A line codec for monitoring records, used when they pass through the
//! storage collaborator: one record per line, every field self-delimiting,
//! and decoding provably restores the record field for field.

use vstd::prelude::*;
use vstd::string::*;
use crate::model::{opt_view, FocusState, MonitoringResult, MonitoringResultView};
use crate::text::{
    chars_of, is_dec_digit, lemma_parse_of_dec, lemma_u64_dec_props, parse_u64, parse_u64_at,
    push_dec, u64_dec,
};

verus! {

/// One optional-string field: `N` for none, or `S`, the length in decimal,
/// `|`, then the characters themselves.
pub open spec fn opt_str_enc(o: Option<Seq<char>>) -> Seq<char> {
    match o {
        None => seq!['N'],
        Some(t) => seq!['S'] + u64_dec(t.len()) + seq!['|'] + t,
    }
}

/// The single character a focus state is written as.
pub open spec fn state_char(f: FocusState) -> char {
    match f {
        FocusState::Focused => 'F',
        FocusState::Distracted => 'D',
        FocusState::SeverelyDistracted => 'S',
        FocusState::Unknown => 'U',
    }
}

/// A whole record on one line: timestamp, state, confidence, then the four
/// optional strings.
pub open spec fn encode_spec(v: MonitoringResultView) -> Seq<char> {
    u64_dec(v.timestamp as nat) + seq!['|'] + seq![state_char(v.focus_state)] + seq!['|']
        + u64_dec(v.confidence as nat) + seq!['|'] + opt_str_enc(v.application_name) + opt_str_enc(
        v.window_title,
    ) + opt_str_enc(v.ocr_text) + opt_str_enc(v.ai_analysis)
}

fn push_state_char(out: &mut String, f: FocusState)
    ensures
        final(out)@ == old(out)@ + seq![state_char(f)],
{
    let s: &str = match f {
        FocusState::Focused => "F",
        FocusState::Distracted => "D",
        FocusState::SeverelyDistracted => "S",
        FocusState::Unknown => "U",
    };
    proof {
        reveal_strlit("F");
        reveal_strlit("D");
        reveal_strlit("S");
        reveal_strlit("U");
        assert(s@ =~= seq![state_char(f)]);
    }
    out.append(s);
}

fn push_opt_str(out: &mut String, o: &Option<String>)
    ensures
        final(out)@ == old(out)@ + opt_str_enc(opt_view(*o)),
        opt_view(*o) matches Some(t) ==> t.len() <= u64::MAX,
{
    match o {
        None => {
            out.append("N");
            proof {
                reveal_strlit("N");
                assert(final(out)@ =~= old(out)@ + opt_str_enc(opt_view(*o)));
            }
        },
        Some(t) => {
            out.append("S");
            push_dec(out, t.as_str().unicode_len() as u64);
            out.append("|");
            out.append(t.as_str());
            proof {
                reveal_strlit("S");
                reveal_strlit("|");
                assert(final(out)@ =~= old(out)@ + opt_str_enc(opt_view(*o)));
            }
        },
    }
}

/// Writes the record as one line of text. Every well-formed record is
/// encodable, so `lemma_codec_round_trip` applies to what was written.
pub fn encode_result(m: &MonitoringResult) -> (r: String)
    ensures
        r@ == encode_spec(m@),
        m.wf() ==> encodable(m@),
{
    let mut out = String::new();
    push_dec(&mut out, m.timestamp);
    out.append("|");
    push_state_char(&mut out, m.focus_state);
    out.append("|");
    push_dec(&mut out, m.confidence as u64);
    out.append("|");
    push_opt_str(&mut out, &m.application_name);
    push_opt_str(&mut out, &m.window_title);
    push_opt_str(&mut out, &m.ocr_text);
    push_opt_str(&mut out, &m.ai_analysis);
    proof {
        reveal_strlit("|");
        assert(out@ =~= encode_spec(m@));
    }
    out
}

/// Reads one optional-string field at `i`.
pub open spec fn parse_opt_str_at(s: Seq<char>, i: int) -> Option<(Option<Seq<char>>, int)> {
    if i < 0 || i >= s.len() {
        None
    } else if s[i] == 'N' {
        Some((None, i + 1))
    } else if s[i] == 'S' {
        match parse_u64_at(s, i + 1) {
            Some((len, j)) => if j < s.len() && s[j] == '|' && j + 1 + len <= s.len() {
                Some((Some(s.subrange(j + 1, j + 1 + len)), j + 1 + len))
            } else {
                None
            },
            None => None,
        }
    } else {
        None
    }
}

/// Reads the focus-state character at `i`.
pub open spec fn parse_state_at(s: Seq<char>, i: int) -> Option<FocusState> {
    if 0 <= i < s.len() {
        if s[i] == 'F' {
            Some(FocusState::Focused)
        } else if s[i] == 'D' {
            Some(FocusState::Distracted)
        } else if s[i] == 'S' {
            Some(FocusState::SeverelyDistracted)
        } else if s[i] == 'U' {
            Some(FocusState::Unknown)
        } else {
            None
        }
    } else {
        None
    }
}

/// How a line reads back as a record: the fields in order, confidence at
/// most 100, and nothing left over. Anything else reads as nothing.
pub open spec fn decode_spec(s: Seq<char>) -> Option<MonitoringResultView> {
    match parse_u64_at(s, 0) {
        None => None,
        Some((ts, i1)) => if i1 < s.len() && s[i1] == '|' && i1 + 2 < s.len() && s[i1 + 2] == '|' {
            match parse_state_at(s, i1 + 1) {
                None => None,
                Some(state) => match parse_u64_at(s, i1 + 3) {
                    None => None,
                    Some((conf, i2)) => if conf <= 100 && i2 < s.len() && s[i2] == '|' {
                        match parse_opt_str_at(s, i2 + 1) {
                            None => None,
                            Some((app, i3)) => match parse_opt_str_at(s, i3) {
                                None => None,
                                Some((title, i4)) => match parse_opt_str_at(s, i4) {
                                    None => None,
                                    Some((ocr, i5)) => match parse_opt_str_at(s, i5) {
                                        None => None,
                                        Some((ana, i6)) => if i6 == s.len() {
                                            Some(
                                                MonitoringResultView {
                                                    timestamp: ts,
                                                    focus_state: state,
                                                    application_name: app,
                                                    window_title: title,
                                                    ocr_text: ocr,
                                                    ai_analysis: ana,
                                                    confidence: conf as u8,
                                                },
                                            )
                                        } else {
                                            None
                                        },
                                    },
                                },
                            },
                        }
                    } else {
                        None
                    },
                },
            }
        } else {
            None
        },
    }
}

fn parse_state(v: &Vec<char>, i: usize) -> (r: Option<FocusState>)
    ensures
        r == parse_state_at(v@, i as int),
{
    if i < v.len() {
        match v[i] {
            'F' => Some(FocusState::Focused),
            'D' => Some(FocusState::Distracted),
            'S' => Some(FocusState::SeverelyDistracted),
            'U' => Some(FocusState::Unknown),
            _ => None,
        }
    } else {
        None
    }
}

fn parse_opt_str(s: &str, v: &Vec<char>, from: usize) -> (r: Option<(Option<String>, usize)>)
    requires
        v@ == s@,
        from <= v@.len(),
    ensures
        match r {
            Some(p) => parse_opt_str_at(s@, from as int) == Some((opt_view(p.0), p.1 as int))
                && from < p.1 <= v@.len(),
            None => parse_opt_str_at(s@, from as int) is None,
        },
{
    if from >= v.len() {
        return None;
    }
    if v[from] == 'N' {
        return Some((None, from + 1));
    }
    if v[from] != 'S' {
        return None;
    }
    match parse_u64(v, from + 1) {
        Some((len64, j)) => {
            if j < v.len() && v[j] == '|' {
                let remaining = v.len() - (j + 1);
                if len64 <= remaining as u64 {
                    let l = len64 as usize;
                    let content = String::from_str(s.substring_char(j + 1, j + 1 + l));
                    Some((Some(content), j + 1 + l))
                } else {
                    None
                }
            } else {
                None
            }
        },
        None => None,
    }
}

/// Reads a line back as a record; exactly the lines `decode_spec` accepts
/// come back as values, with confidence within bounds.
pub fn decode_result(s: &str) -> (r: Option<MonitoringResult>)
    ensures
        match r {
            Some(m) => decode_spec(s@) == Some(m@) && m.wf(),
            None => decode_spec(s@) is None,
        },
{
    let v = chars_of(s);
    let n = v.len();
    let (ts, i1) = match parse_u64(&v, 0) {
        Some(p) => p,
        None => {
            return None;
        },
    };
    if n - i1 < 3 {
        return None;
    }
    if v[i1] != '|' || v[i1 + 2] != '|' {
        return None;
    }
    let state = match parse_state(&v, i1 + 1) {
        Some(st) => st,
        None => {
            return None;
        },
    };
    let (conf64, i2) = match parse_u64(&v, i1 + 3) {
        Some(p) => p,
        None => {
            return None;
        },
    };
    if conf64 > 100 {
        return None;
    }
    if i2 >= n || v[i2] != '|' {
        return None;
    }
    let (app, i3) = match parse_opt_str(s, &v, i2 + 1) {
        Some(p) => p,
        None => {
            return None;
        },
    };
    let (title, i4) = match parse_opt_str(s, &v, i3) {
        Some(p) => p,
        None => {
            return None;
        },
    };
    let (ocr, i5) = match parse_opt_str(s, &v, i4) {
        Some(p) => p,
        None => {
            return None;
        },
    };
    let (ana, i6) = match parse_opt_str(s, &v, i5) {
        Some(p) => p,
        None => {
            return None;
        },
    };
    if i6 != n {
        return None;
    }
    let m = MonitoringResult {
        timestamp: ts,
        focus_state: state,
        application_name: app,
        window_title: title,
        ocr_text: ocr,
        ai_analysis: ana,
        confidence: conf64 as u8,
    };
    assert(decode_spec(s@) == Some(m@));
    Some(m)
}

/// A view every real record satisfies: confidence within bounds and string
/// lengths writable in a 64-bit length field.
pub open spec fn encodable(v: MonitoringResultView) -> bool {
    &&& v.confidence <= 100
    &&& (v.application_name matches Some(t) ==> t.len() <= u64::MAX)
    &&& (v.window_title matches Some(t) ==> t.len() <= u64::MAX)
    &&& (v.ocr_text matches Some(t) ==> t.len() <= u64::MAX)
    &&& (v.ai_analysis matches Some(t) ==> t.len() <= u64::MAX)
}

/// Reading an encoded optional-string field yields the field back and
/// stops right past it.
proof fn lemma_parse_opt_of_enc(s: Seq<char>, i: int, o: Option<Seq<char>>)
    requires
        0 <= i,
        i + opt_str_enc(o).len() <= s.len(),
        s.subrange(i, i + opt_str_enc(o).len() as int) == opt_str_enc(o),
        o matches Some(t) ==> t.len() <= u64::MAX,
    ensures
        parse_opt_str_at(s, i) == Some((o, i + opt_str_enc(o).len() as int)),
{
    let e = opt_str_enc(o);
    assert(s[i] == e[0]) by {
        assert(s.subrange(i, i + e.len() as int)[0] == e[0]);
    }
    match o {
        None => {
            assert(e[0] == 'N');
        },
        Some(t) => {
            let d = u64_dec(t.len());
            lemma_u64_dec_props(t.len());
            assert(e[0] == 'S');
            assert(e =~= seq!['S'] + d + seq!['|'] + t);
            let j = i + 1 + d.len() as int;
            assert forall|k: int| 0 <= k < d.len() implies s[i + 1 + k] == d[k] by {
                assert(s.subrange(i, i + e.len() as int)[1 + k] == e[1 + k]);
                assert(e[1 + k] == d[k]);
            }
            assert(s.subrange(i + 1, j) =~= d);
            assert(s[j] == '|') by {
                assert(s.subrange(i, i + e.len() as int)[1 + d.len() as int] == e[1 + d.len() as int]);
            }
            assert(!is_dec_digit('|'));
            let n64 = t.len() as u64;
            assert(u64_dec(n64 as nat) == d);
            lemma_parse_of_dec(s, i + 1, n64);
            assert(parse_u64_at(s, i + 1) == Some((n64, j)));
            assert forall|k: int| 0 <= k < t.len() implies s[j + 1 + k] == t[k] by {
                assert(s.subrange(i, i + e.len() as int)[2 + d.len() + k] == e[2 + d.len() + k]);
                assert(e[2 + d.len() + k] == t[k]);
            }
            assert(s.subrange(j + 1, j + 1 + n64 as int) =~= t);
        },
    }
}

/// Law: a record written by the codec and read back is the same record,
/// field for field — including an Unknown record's default confidence.
pub proof fn lemma_codec_round_trip(v: MonitoringResultView)
    requires
        encodable(v),
    ensures
        decode_spec(encode_spec(v)) == Some(v),
{
    let s = encode_spec(v);
    let dts = u64_dec(v.timestamp as nat);
    let dconf = u64_dec(v.confidence as nat);
    let e7 = opt_str_enc(v.application_name);
    let e8 = opt_str_enc(v.window_title);
    let e9 = opt_str_enc(v.ocr_text);
    let e10 = opt_str_enc(v.ai_analysis);
    lemma_u64_dec_props(v.timestamp as nat);
    lemma_u64_dec_props(v.confidence as nat);

    let i1 = dts.len() as int;
    assert(s.subrange(0, i1) =~= dts);
    assert(s[i1] == '|');
    assert(!is_dec_digit('|'));
    lemma_parse_of_dec(s, 0, v.timestamp);
    assert(parse_u64_at(s, 0) == Some((v.timestamp, i1)));

    assert(s[i1 + 1] == state_char(v.focus_state));
    assert(s[i1 + 2] == '|');
    assert(parse_state_at(s, i1 + 1) == Some(v.focus_state));

    let i2 = i1 + 3 + dconf.len() as int;
    assert(s.subrange(i1 + 3, i2) =~= dconf);
    assert(s[i2] == '|');
    let c64 = v.confidence as u64;
    assert(u64_dec(c64 as nat) == dconf);
    lemma_parse_of_dec(s, i1 + 3, c64);
    assert(parse_u64_at(s, i1 + 3) == Some((c64, i2)));

    let i3 = i2 + 1 + e7.len() as int;
    assert(s.subrange(i2 + 1, i3) =~= e7);
    lemma_parse_opt_of_enc(s, i2 + 1, v.application_name);
    assert(parse_opt_str_at(s, i2 + 1) == Some((v.application_name, i3)));

    let i4 = i3 + e8.len() as int;
    assert(s.subrange(i3, i4) =~= e8);
    lemma_parse_opt_of_enc(s, i3, v.window_title);

    let i5 = i4 + e9.len() as int;
    assert(s.subrange(i4, i5) =~= e9);
    lemma_parse_opt_of_enc(s, i4, v.ocr_text);

    let i6 = i5 + e10.len() as int;
    assert(s.subrange(i5, i6) =~= e10);
    lemma_parse_opt_of_enc(s, i5, v.ai_analysis);

    assert(i6 == s.len());
    assert((v.confidence as u64) as u8 == v.confidence);
}

} // verus!
