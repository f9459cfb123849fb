//! Reading cookies out of `Cookie` header values.
use vstd::prelude::*;
use vstd::string::StrSliceExecFns;
use axum_extra::extract::cookie::Cookie;
use crate::text::{header_text_of, header_value_text};

verus! {

/// The pieces of `s` between semicolons, scanning from index `i`, where the
/// piece under way began at `start`.
pub open spec fn pieces_from(s: Seq<char>, start: int, i: int) -> Seq<Seq<char>>
    decreases s.len() - i,
{
    if i >= s.len() {
        seq![s.subrange(start, s.len() as int)]
    } else if s[i] == ';' {
        seq![s.subrange(start, i)] + pieces_from(s, i + 1, i + 1)
    } else {
        pieces_from(s, start, i + 1)
    }
}

/// `s` split at every semicolon; a string without one is a single piece.
pub open spec fn split_semicolons(s: Seq<char>) -> Seq<Seq<char>> {
    pieces_from(s, 0, 0)
}

/// What percent-decoding cookie parsing makes of one `name=value` piece:
/// the trimmed name and value, or `None` where the piece is no cookie.
pub uninterp spec fn cookie_pair_of(s: Seq<char>) -> Option<(Seq<char>, Seq<char>)>;

/// The pairs among `parsed`, in order, leaving out the pieces that were no cookie.
pub open spec fn kept_pairs(parsed: Seq<Option<(Seq<char>, Seq<char>)>>) -> Seq<(Seq<char>, Seq<char>)>
    decreases parsed.len(),
{
    if parsed.len() == 0 {
        Seq::empty()
    } else {
        let rest = kept_pairs(parsed.drop_first());
        match parsed[0] {
            Some(p) => seq![p] + rest,
            None => rest,
        }
    }
}

/// The result of parsing each of `pieces` as a cookie.
pub open spec fn parse_pieces(pieces: Seq<Seq<char>>) -> Seq<Option<(Seq<char>, Seq<char>)>> {
    pieces.map_values(|p: Seq<char>| cookie_pair_of(p))
}

/// The cookies of one `Cookie` header text, in the order they stand in it.
pub open spec fn cookies_of_text(s: Seq<char>) -> Seq<(Seq<char>, Seq<char>)> {
    kept_pairs(parse_pieces(split_semicolons(s)))
}

/// A header name that names the `Cookie` header, in any case of its letters.
pub open spec fn is_cookie_name(n: Seq<char>) -> bool {
    let c = seq!['c', 'o', 'o', 'k', 'i', 'e'];
    n.len() == 6 && forall|i: int| 0 <= i < 6 ==> (#[trigger] n[i] == c[i] || n[i] as u32 + 32 == c[i] as u32)
}

/// The cookies of a list of headers: those of each `Cookie` header, header by
/// header, in order. A value that is not visible ASCII reads as empty text.
pub open spec fn request_cookies_of(hs: Seq<(Seq<char>, Seq<u8>)>) -> Seq<(Seq<char>, Seq<char>)>
    decreases hs.len(),
{
    if hs.len() == 0 {
        Seq::empty()
    } else {
        let rest = request_cookies_of(hs.drop_last());
        if is_cookie_name(hs.last().0) {
            rest + cookies_of_text(header_text_of(hs.last().1))
        } else {
            rest
        }
    }
}

/// Relies on `cookie::Cookie::parse_encoded`, which axum_extra re-exports and
/// uses for each piece of a `Cookie` header: it trims the name and value,
/// percent-decodes them, and fails on a piece without `=` or with an empty name.
#[verifier::external_body]
fn parse_cookie_pair(s: &str) -> (r: Option<(String, String)>)
    ensures
        r.deep_view() == cookie_pair_of(s@),
{
    match Cookie::parse_encoded(s) {
        Ok(c) => Some((c.name().to_string(), c.value().to_string())),
        Err(_) => None,
    }
}

/// The pairs among the results of parsing each piece of a `Cookie` header,
/// in order, without the pieces that were no cookie.
pub fn cookies_from_parsed(parsed: &Vec<Option<(String, String)>>) -> (r: Vec<(String, String)>)
    ensures
        r.deep_view() == kept_pairs(parsed.deep_view()),
{
    let mut out: Vec<(String, String)> = Vec::new();
    let mut i: usize = 0;
    proof {
        assert(parsed.deep_view().subrange(0, parsed@.len() as int) =~= parsed.deep_view());
        assert(out.deep_view() + kept_pairs(parsed.deep_view()) =~= kept_pairs(parsed.deep_view()));
    }
    while i < parsed.len()
        invariant
            i <= parsed@.len(),
            out.deep_view() + kept_pairs(parsed.deep_view().subrange(i as int, parsed@.len() as int))
                == kept_pairs(parsed.deep_view()),
        decreases parsed@.len() - i,
    {
        let ghost rest = parsed.deep_view().subrange(i as int, parsed@.len() as int);
        proof {
            assert(rest.drop_first() =~= parsed.deep_view().subrange(i + 1, parsed@.len() as int));
            assert(parsed.deep_view().subrange(0, parsed@.len() as int) =~= parsed.deep_view());
        }
        match &parsed[i] {
            Some(p) => {
                let ghost before = out.deep_view();
                out.push((p.0.clone(), p.1.clone()));
                proof {
                    assert(out.deep_view() =~= before + seq![rest[0]->Some_0]);
                    assert(before + (seq![rest[0]->Some_0] + kept_pairs(rest.drop_first()))
                        =~= out.deep_view() + kept_pairs(rest.drop_first()));
                }
            },
            None => {},
        }
        i = i + 1;
    }
    proof {
        assert(parsed.deep_view().subrange(i as int, parsed@.len() as int) =~= Seq::<Option<(Seq<char>, Seq<char>)>>::empty());
        assert(out.deep_view() + Seq::<(Seq<char>, Seq<char>)>::empty() =~= out.deep_view());
    }
    out
}

/// The cookies of one `Cookie` header text: the text is split at each
/// semicolon and each piece parsed as `name=value`; the pieces that are no
/// cookie are left out.
pub fn cookies_of_header_text(s: &str) -> (r: Vec<(String, String)>)
    ensures
        r.deep_view() == cookies_of_text(s@),
{
    let n = s.unicode_len();
    let mut parsed: Vec<Option<(String, String)>> = Vec::new();
    let mut start: usize = 0;
    let mut i: usize = 0;
    proof {
        assert(parsed.deep_view() + parse_pieces(pieces_from(s@, 0, 0)) =~= parse_pieces(split_semicolons(s@)));
    }
    while i < n
        invariant
            n == s@.len(),
            start <= i <= n,
            parsed.deep_view() + parse_pieces(pieces_from(s@, start as int, i as int))
                == parse_pieces(split_semicolons(s@)),
        decreases n - i,
    {
        if s.get_char(i) == ';' {
            let piece = s.substring_char(start, i);
            let r = parse_cookie_pair(piece);
            let ghost before = parsed.deep_view();
            let ghost tail = pieces_from(s@, i + 1, i + 1);
            parsed.push(r);
            proof {
                assert(parsed.deep_view() =~= before.push(cookie_pair_of(piece@)));
                assert(pieces_from(s@, start as int, i as int) == seq![piece@] + tail);
                assert(parse_pieces(seq![piece@] + tail) =~= seq![cookie_pair_of(piece@)] + parse_pieces(tail));
                assert(before + (seq![cookie_pair_of(piece@)] + parse_pieces(tail))
                    =~= parsed.deep_view() + parse_pieces(tail));
            }
            start = i + 1;
        }
        i = i + 1;
    }
    let piece = s.substring_char(start, n);
    let r = parse_cookie_pair(piece);
    let ghost before = parsed.deep_view();
    parsed.push(r);
    proof {
        assert(parsed.deep_view() =~= before.push(cookie_pair_of(piece@)));
        assert(pieces_from(s@, start as int, n as int) == seq![piece@]);
        assert(parse_pieces(seq![piece@]) =~= seq![cookie_pair_of(piece@)]);
        assert(before + seq![cookie_pair_of(piece@)] =~= parsed.deep_view());
    }
    cookies_from_parsed(&parsed)
}

/// The cookies that a request's headers carry: for each `Cookie` header, in
/// the order the headers come, the cookies of its text in their own order.
pub fn request_cookies(headers: &Vec<(String, Vec<u8>)>) -> (r: Vec<(String, String)>)
    ensures
        r.deep_view() == request_cookies_of(headers.deep_view()),
{
    let mut out: Vec<(String, String)> = Vec::new();
    let mut i: usize = 0;
    while i < headers.len()
        invariant
            i <= headers@.len(),
            out.deep_view() == request_cookies_of(headers.deep_view().take(i as int)),
        decreases headers@.len() - i,
    {
        let name = headers[i].0.as_str();
        let named_cookie = name.unicode_len() == 6 && cookie_letter(name.get_char(0), 'c')
            && cookie_letter(name.get_char(1), 'o') && cookie_letter(name.get_char(2), 'o')
            && cookie_letter(name.get_char(3), 'k') && cookie_letter(name.get_char(4), 'i')
            && cookie_letter(name.get_char(5), 'e');
        proof {
            assert(headers.deep_view().take(i + 1).drop_last() =~= headers.deep_view().take(i as int));
            assert(headers@[i as int].1.deep_view() =~= headers@[i as int].1@);
            assert(headers.deep_view().take(i + 1).last() == (headers@[i as int].0@, headers@[i as int].1@));
            let c = seq!['c', 'o', 'o', 'k', 'i', 'e'];
            if named_cookie {
                assert forall|k: int| 0 <= k < 6 implies (#[trigger] name@[k] == c[k] || name@[k] as u32 + 32 == c[k] as u32) by {
                    if k == 0 {} else if k == 1 {} else if k == 2 {} else if k == 3 {} else if k == 4 {} else {}
                }
            } else if name@.len() == 6 {
                if is_cookie_name(name@) {
                    assert(name@[0] == c[0] || name@[0] as u32 + 32 == c[0] as u32);
                    assert(name@[1] == c[1] || name@[1] as u32 + 32 == c[1] as u32);
                    assert(name@[2] == c[2] || name@[2] as u32 + 32 == c[2] as u32);
                    assert(name@[3] == c[3] || name@[3] as u32 + 32 == c[3] as u32);
                    assert(name@[4] == c[4] || name@[4] as u32 + 32 == c[4] as u32);
                    assert(name@[5] == c[5] || name@[5] as u32 + 32 == c[5] as u32);
                }
            }
        }
        if named_cookie {
            let text = header_value_text(&headers[i].1);
            let mut found = cookies_of_header_text(text.as_str());
            let ghost before = out.deep_view();
            let ghost more = found.deep_view();
            out.append(&mut found);
            proof {
                assert(out.deep_view() =~= before + more);
            }
        }
        i = i + 1;
    }
    proof {
        assert(headers.deep_view().take(i as int) =~= headers.deep_view());
    }
    out
}

/// `c` is the lower-case ASCII letter `lower`, or its upper-case form.
fn cookie_letter(c: char, lower: char) -> (r: bool)
    requires
        'a' <= lower <= 'z',
    ensures
        r == (c == lower || c as u32 + 32 == lower as u32),
{
    c == lower || (c as u32) + 32 == lower as u32
}

} // verus!
