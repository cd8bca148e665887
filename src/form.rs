use vstd::prelude::*;

use crate::text::{chars_of, find_char, first_index};

verus! {

/// What `urlencoding::decode` gives for `s`: `None` where the decoded bytes are not UTF-8.
pub uninterp spec fn percent_decoded(s: Seq<char>) -> Option<Seq<char>>;

/// Relies on `urlencoding::decode`: percent-decodes `s` (a `+` stays a `+`). Its source hands
/// back the input itself when the input holds no `%`.
#[verifier::external_body]
fn percent_decode(s: &Vec<char>) -> (r: Option<String>)
    ensures
        r is None <==> percent_decoded(s@) is None,
        r is Some ==> percent_decoded(s@) == Some(r->Some_0@),
        !s@.contains('%') ==> r is Some && r->Some_0@ == s@,
{
    let s: String = s.iter().collect();
    urlencoding::decode(&s).ok().map(|d| d.into_owned())
}

/// `s` split at every `sep`; there is always at least one piece.
pub open spec fn split_on(s: Seq<char>, sep: char) -> Seq<Seq<char>>
    decreases s.len(),
{
    if s.len() == 0 {
        seq![Seq::empty()]
    } else {
        let p = split_on(s.drop_last(), sep);
        if s.last() == sep {
            p.push(Seq::empty())
        } else {
            p.update(p.len() - 1, p.last().push(s.last()))
        }
    }
}

/// `+` read as a space, as the form encoding has it.
pub open spec fn plus_as_space(s: Seq<char>) -> Seq<char> {
    s.map_values(|c: char| if c == '+' { ' ' } else { c })
}

pub open spec fn decoded(s: Seq<char>) -> Option<Seq<char>> {
    percent_decoded(plus_as_space(s))
}

/// The raw key of a piece: everything before its first `=`.
pub open spec fn raw_key(p: Seq<char>) -> Seq<char> {
    p.take(first_index(p, '='))
}

/// The raw value of a piece: everything after its first `=`, empty where there is none.
pub open spec fn raw_value(p: Seq<char>) -> Seq<char> {
    if first_index(p, '=') < p.len() {
        p.skip(first_index(p, '=') + 1)
    } else {
        Seq::empty()
    }
}

/// A piece of a form body, with its key and value decoded.
pub open spec fn decode_piece(p: Seq<char>) -> Option<(Seq<char>, Seq<char>)> {
    match (decoded(raw_key(p)), decoded(raw_value(p))) {
        (Some(k), Some(v)) => Some((k, v)),
        _ => None,
    }
}

/// The decoded pairs of an `application/x-www-form-urlencoded` body, or `None` where a key or a
/// value does not decode.
pub open spec fn form_pairs(body: Seq<char>) -> Option<Seq<(Seq<char>, Seq<char>)>> {
    let pieces = split_on(body, '&');
    if forall|i: int| 0 <= i < pieces.len() ==> (#[trigger] decode_piece(pieces[i])) is Some {
        Some(pieces.map_values(|p: Seq<char>| decode_piece(p)->Some_0))
    } else {
        None
    }
}

/// One decoded key and value of a form body.
pub struct FormPair {
    pub key: String,
    pub value: String,
}

pub open spec fn pairs_view(v: Seq<FormPair>) -> Seq<(Seq<char>, Seq<char>)> {
    v.map_values(|p: FormPair| (p.key@, p.value@))
}

/// `cs[lo..hi]` with `+` read as a space.
fn plus_as_space_range(cs: &Vec<char>, lo: usize, hi: usize) -> (r: Vec<char>)
    requires
        lo <= hi <= cs.len(),
    ensures
        r@ == plus_as_space(cs@.subrange(lo as int, hi as int)),
{
    let mut r: Vec<char> = Vec::new();
    let mut i = lo;
    while i < hi
        invariant
            lo <= i <= hi <= cs.len(),
            r@ == plus_as_space(cs@.subrange(lo as int, i as int)),
        decreases hi - i,
    {
        let c = cs[i];
        r.push(if c == '+' { ' ' } else { c });
        assert(cs@.subrange(lo as int, i + 1) =~= cs@.subrange(lo as int, i as int).push(c));
        i += 1;
    }
    r
}

/// Decodes one piece of a form body.
fn decode_form_piece(p: &Vec<char>) -> (r: Option<FormPair>)
    ensures
        r is None <==> decode_piece(p@) is None,
        r matches Some(fp) ==> decode_piece(p@) == Some((fp.key@, fp.value@)),
{
    let k = find_char(p, '=');
    let raw_k = plus_as_space_range(p, 0, k);
    let raw_v = if k < p.len() {
        plus_as_space_range(p, k + 1, p.len())
    } else {
        Vec::new()
    };
    proof {
        assert(p@.subrange(0, k as int) =~= raw_key(p@));
        if k < p.len() {
            assert(p@.subrange(k + 1, p.len() as int) =~= raw_value(p@));
        } else {
            assert(plus_as_space(raw_value(p@)) =~= raw_v@);
        }
    }
    match (percent_decode(&raw_k), percent_decode(&raw_v)) {
        (Some(key), Some(value)) => Some(FormPair { key, value }),
        _ => None,
    }
}


proof fn lemma_split_on_step(s: Seq<char>, i: int, sep: char)
    requires
        0 <= i < s.len(),
    ensures
        split_on(s.take(i + 1), sep) == ({
            let p = split_on(s.take(i), sep);
            if s[i] == sep {
                p.push(Seq::empty())
            } else {
                p.update(p.len() - 1, p.last().push(s[i]))
            }
        }),
{
    assert(s.take(i + 1).drop_last() =~= s.take(i));
}

/// Decodes an `application/x-www-form-urlencoded` body into its pairs, in order. Fails where a
/// key or a value is not percent-encoded UTF-8.
pub fn parse_form(body: &str) -> (r: Option<Vec<FormPair>>)
    ensures
        r is None <==> form_pairs(body@) is None,
        r is Some ==> form_pairs(body@) == Some(pairs_view(r->Some_0@)),
{
    let cs = chars_of(body);
    let ghost pieces = split_on(cs@, '&');
    let mut pairs: Vec<FormPair> = Vec::new();
    let mut ok = true;
    let mut cur: Vec<char> = Vec::new();
    let mut i: usize = 0;
    proof {
        assert(cs@.take(0) =~= Seq::<char>::empty());
    }
    while i < cs.len()
        invariant
            i <= cs.len(),
            cs@ == body@,
            split_on(cs@.take(i as int), '&').len() == pairs.len() + 1,
            cur@ == split_on(cs@.take(i as int), '&').last(),
            ok ==> forall|j: int|
                0 <= j < pairs.len() ==> decode_piece(split_on(cs@.take(i as int), '&')[j])
                    == Some((#[trigger] pairs@[j].key@, pairs@[j].value@)),
            !ok ==> exists|j: int|
                0 <= j < split_on(cs@.take(i as int), '&').len() - 1 && (#[trigger] decode_piece(
                    split_on(cs@.take(i as int), '&')[j],
                )) is None,
        decreases cs.len() - i,
    {
        let ghost before = split_on(cs@.take(i as int), '&');
        proof {
            lemma_split_on_step(cs@, i as int, '&');
        }
        if cs[i] == '&' {
            match decode_form_piece(&cur) {
                Some(fp) => {
                    pairs.push(fp);
                },
                None => {
                    // The whole body is refused; a placeholder keeps one entry per piece.
                    ok = false;
                    pairs.push(FormPair { key: String::new(), value: String::new() });
                },
            }
            cur = Vec::new();
            proof {
                let after = split_on(cs@.take(i + 1), '&');
                assert(after =~= before.push(Seq::empty()));
                assert forall|j: int| 0 <= j < before.len() implies after[j] == before[j] by {}
            }
        } else {
            cur.push(cs[i]);
            proof {
                let after = split_on(cs@.take(i + 1), '&');
                assert forall|j: int| 0 <= j < before.len() - 1 implies after[j] == before[j] by {}
            }
        }
        i += 1;
    }
    proof {
        assert(cs@.take(cs.len() as int) =~= cs@);
    }
    match decode_form_piece(&cur) {
        Some(fp) => {
            pairs.push(fp);
        },
        None => {
            ok = false;
        },
    }
    if ok {
        proof {
            let pv = pairs_view(pairs@);
            let m = pieces.map_values(|p: Seq<char>| decode_piece(p)->Some_0);
            assert forall|j: int| 0 <= j < pieces.len() implies (#[trigger] decode_piece(
                pieces[j],
            )) is Some by {
                assert(decode_piece(pieces[j]) == Some((pairs@[j].key@, pairs@[j].value@)));
            }
            assert(pv =~= m);
        }
        Some(pairs)
    } else {
        None
    }
}

/// What looking a key up among the pairs of a form gives.
pub enum FieldLookup {
    Missing,
    Duplicate,
    Found(String),
}

/// The value of the one pair whose key is `key`; `Missing` where none has it, `Duplicate`
/// where more than one does.
pub fn find_field(pairs: &Vec<FormPair>, key: &str) -> (r: FieldLookup)
    ensures
        r is Missing <==> forall|i: int| 0 <= i < pairs.len() ==> #[trigger] pairs@[i].key@ != key@,
        r is Duplicate <==> exists|i: int, j: int|
            0 <= i < j < pairs.len() && #[trigger] pairs@[i].key@ == key@ && #[trigger] pairs@[j].key@
                == key@,
        r matches FieldLookup::Found(v) ==> exists|i: int|
            0 <= i < pairs.len() && #[trigger] pairs@[i].key@ == key@ && pairs@[i].value@ == v@,
{
    let mut found: Option<usize> = None;
    let mut i: usize = 0;
    while i < pairs.len()
        invariant
            i <= pairs.len(),
            found is None ==> forall|j: int| 0 <= j < i ==> #[trigger] pairs@[j].key@ != key@,
            found matches Some(f) ==> f < i && pairs@[f as int].key@ == key@ && forall|j: int|
                0 <= j < i && j != f ==> #[trigger] pairs@[j].key@ != key@,
        decreases pairs.len() - i,
    {
        if string_eq(&pairs[i].key, key) {
            if found.is_some() {
                let f = found.unwrap();
                assert(pairs@[f as int].key@ == key@);
                return FieldLookup::Duplicate;
            }
            found = Some(i);
        }
        i += 1;
    }
    match found {
        None => FieldLookup::Missing,
        Some(f) => {
            proof {
                assert forall|a: int, b: int|
                    0 <= a < b < pairs.len() && #[trigger] pairs@[a].key@ == key@ implies #[trigger] pairs@[b].key@
                        != key@ by {}
            }
            FieldLookup::Found(pairs[f].value.clone())
        },
    }
}

/// Whether `a` and `b` hold the same characters.
pub fn string_eq(a: &String, b: &str) -> (r: bool)
    ensures
        r == (a@ == b@),
{
    let x = chars_of(a.as_str());
    let y = chars_of(b);
    if x.len() != y.len() {
        return false;
    }
    let mut i: usize = 0;
    while i < x.len()
        invariant
            i <= x.len() == y.len(),
            x@ == a@,
            y@ == b@,
            forall|j: int| 0 <= j < i ==> x@[j] == y@[j],
        decreases x.len() - i,
    {
        if x[i] != y[i] {
            return false;
        }
        i += 1;
    }
    assert(x@ =~= y@);
    true
}


pub open spec fn field_appears(p: Seq<(Seq<char>, Seq<char>)>, k: Seq<char>) -> bool {
    exists|i: int| 0 <= i < p.len() && (#[trigger] p[i]).0 == k
}

pub open spec fn field_repeated(p: Seq<(Seq<char>, Seq<char>)>, k: Seq<char>) -> bool {
    exists|i: int, j: int| 0 <= i < j < p.len() && (#[trigger] p[i]).0 == k && (#[trigger] p[j]).0 == k
}

/// The value of a pair whose key is `k` (the one such pair, where `k` is not repeated).
pub open spec fn field_value(p: Seq<(Seq<char>, Seq<char>)>, k: Seq<char>) -> Seq<char> {
    p[choose|i: int| 0 <= i < p.len() && (#[trigger] p[i]).0 == k].1
}

/// Why the pairs of a form could not fill a record.
pub enum FormRejection {
    MissingField(String),
    DuplicateField(String),
    InvalidEncoding,
}

impl FormRejection {
    pub open spec fn detail_spec(&self) -> Seq<char> {
        match self {
            FormRejection::MissingField(f) => "missing field `"@ + f@ + "`"@,
            FormRejection::DuplicateField(f) => "duplicate field `"@ + f@ + "`"@,
            FormRejection::InvalidEncoding => "invalid percent-encoding"@,
        }
    }

    /// What is wrong, in the words a form decoder uses.
    pub fn detail(&self) -> (r: String)
        ensures
            r@ == self.detail_spec(),
    {
        match self {
            FormRejection::MissingField(f) => String::from_str("missing field `").concat(
                f.as_str(),
            ).concat("`"),
            FormRejection::DuplicateField(f) => String::from_str("duplicate field `").concat(
                f.as_str(),
            ).concat("`"),
            FormRejection::InvalidEncoding => String::from_str("invalid percent-encoding"),
        }
    }
}

/// The value of the field `key`, which must occur exactly once among `pairs`.
pub fn required_field(pairs: &Vec<FormPair>, key: &str) -> (r: Result<String, FormRejection>)
    ensures
        field_repeated(pairs_view(pairs@), key@) ==> (r matches Err(
            FormRejection::DuplicateField(f),
        ) && f@ == key@),
        !field_repeated(pairs_view(pairs@), key@) && !field_appears(pairs_view(pairs@), key@) ==> (r matches Err(
            FormRejection::MissingField(f),
        ) && f@ == key@),
        !field_repeated(pairs_view(pairs@), key@) && field_appears(pairs_view(pairs@), key@) ==> (r matches Ok(v)
            && v@ == field_value(pairs_view(pairs@), key@)),
{
    let ghost p = pairs_view(pairs@);
    assert(forall|i: int| 0 <= i < pairs.len() ==> #[trigger] p[i] == (pairs@[i].key@, pairs@[i].value@));
    match find_field(pairs, key) {
        FieldLookup::Missing => Err(FormRejection::MissingField(String::from_str(key))),
        FieldLookup::Duplicate => {
            proof {
                let (i, j) = choose|i: int, j: int|
                    0 <= i < j < pairs.len() && #[trigger] pairs@[i].key@ == key@ && #[trigger] pairs@[j].key@
                        == key@;
                assert(p[i].0 == key@ && p[j].0 == key@);
            }
            Err(FormRejection::DuplicateField(String::from_str(key)))
        },
        FieldLookup::Found(v) => {
            proof {
                let i = choose|i: int|
                    0 <= i < pairs.len() && #[trigger] pairs@[i].key@ == key@ && pairs@[i].value@ == v@;
                assert(p[i].0 == key@);
                if !field_repeated(p, key@) {
                    let c = choose|c: int| 0 <= c < p.len() && (#[trigger] p[c]).0 == key@;
                    if c < i {
                        assert(p[c].0 == key@ && p[i].0 == key@);
                    } else if i < c {
                        assert(p[i].0 == key@ && p[c].0 == key@);
                    }
                }
            }
            Ok(v)
        },
    }
}

} // verus!
