use vstd::prelude::*;

verus! {

/// What `application/x-www-form-urlencoded` makes of one name or value.
pub uninterp spec fn form_component(s: Seq<char>) -> Seq<char>;

/// The name/value pairs that a form-urlencoded text decodes to, in order.
pub uninterp spec fn form_decoded(q: Seq<char>) -> Seq<(Seq<char>, Seq<char>)>;

/// Relies on `form_urlencoded::byte_serialize` (re-exported by url): the
/// form-urlencoded text of one name or value, which depends on `s` alone.
#[verifier::external_body]
fn encode_component(s: &str) -> (r: String)
    ensures
        r@ == form_component(s@),
{
    url::form_urlencoded::byte_serialize(s.as_bytes()).collect()
}

/// Relies on `form_urlencoded::parse` (re-exported by url): the pairs of a
/// query text, names and values decoded; an empty text has none.
#[verifier::external_body]
fn decode_pairs(q: &str) -> (r: Vec<(String, String)>)
    ensures
        pairs_view(r@) == form_decoded(q@),
        q@.len() == 0 ==> r@.len() == 0,
{
    url::form_urlencoded::parse(q.as_bytes()).into_owned().collect()
}

/// The pairs with each name and value seen as its characters.
pub open spec fn pairs_view(v: Seq<(String, String)>) -> Seq<(Seq<char>, Seq<char>)> {
    v.map_values(|p: (String, String)| (p.0@, p.1@))
}

/// One pair as a form puts it: `name=value`, both encoded.
pub open spec fn pair_text(p: (Seq<char>, Seq<char>)) -> Seq<char> {
    form_component(p.0) + seq!['='] + form_component(p.1)
}

/// The pairs as a form-urlencoded text, joined by `&`.
pub open spec fn form_text(pairs: Seq<(Seq<char>, Seq<char>)>) -> Seq<char>
    decreases pairs.len(),
{
    if pairs.len() == 0 {
        seq![]
    } else if pairs.len() == 1 {
        pair_text(pairs[0])
    } else {
        form_text(pairs.drop_last()) + seq!['&'] + pair_text(pairs.last())
    }
}

/// Serialises name/value pairs as `application/x-www-form-urlencoded`.
pub fn encode_form(pairs: &Vec<(String, String)>) -> (r: String)
    ensures
        r@ == form_text(pairs_view(pairs@)),
{
    let mut s = String::new();
    let mut i: usize = 0;
    while i < pairs.len()
        invariant
            i <= pairs@.len(),
            s@ == form_text(pairs_view(pairs@.subrange(0, i as int))),
        decreases pairs.len() - i,
    {
        let ghost before = pairs@.subrange(0, i as int);
        let ghost after = pairs@.subrange(0, i + 1);
        if i > 0 {
            proof { reveal_strlit("&"); }
            s.append("&");
        }
        s.append(encode_component(pairs[i].0.as_str()).as_str());
        proof { reveal_strlit("="); }
        s.append("=");
        s.append(encode_component(pairs[i].1.as_str()).as_str());
        proof {
            assert(pairs_view(after).drop_last() =~= pairs_view(before));
            assert(pairs_view(after).last() == (pairs@[i as int].0@, pairs@[i as int].1@));
        }
        assert(s@ =~= form_text(pairs_view(after)));
        i = i + 1;
    }
    assert(pairs@.subrange(0, pairs@.len() as int) =~= pairs@);
    s
}

/// Position of the first `c` in `s`, or its length when there is none.
pub open spec fn first_at(s: Seq<char>, c: char) -> int
    decreases s.len(),
{
    if s.len() == 0 {
        0
    } else if s[0] == c {
        0
    } else {
        1 + first_at(s.drop_first(), c)
    }
}

proof fn lemma_first_at(s: Seq<char>, c: char)
    ensures
        0 <= first_at(s, c) <= s.len(),
        forall|j: int| 0 <= j < first_at(s, c) ==> s[j] != c,
        first_at(s, c) < s.len() ==> s[first_at(s, c)] == c,
    decreases s.len(),
{
    if s.len() > 0 && s[0] != c {
        lemma_first_at(s.drop_first(), c);
        assert forall|j: int| 0 <= j < first_at(s, c) implies s[j] != c by {
            if j > 0 {
                assert(s[j] == s.drop_first()[j - 1]);
            }
        }
    }
}

/// Finds the first `c` in `s`.
fn char_index(s: &str, c: char) -> (i: usize)
    ensures
        i as int == first_at(s@, c),
{
    proof { lemma_first_at(s@, c); }
    let n = s.unicode_len();
    let mut i: usize = 0;
    while i < n && s.get_char(i) != c
        invariant
            n == s@.len(),
            i <= n,
            forall|j: int| 0 <= j < i ==> s@[j] != c,
        decreases n - i,
    {
        i = i + 1;
    }
    i
}

/// The path of a request target: what stands before the first `?`.
pub open spec fn target_path(t: Seq<char>) -> Seq<char> {
    t.subrange(0, first_at(t, '?'))
}

/// The query of a request target: what follows the first `?`, up to a `#`.
pub open spec fn target_query(t: Seq<char>) -> Seq<char> {
    let k = first_at(t, '?');
    let rest = if k < t.len() { t.subrange(k + 1, t.len() as int) } else { Seq::<char>::empty() };
    rest.subrange(0, first_at(rest, '#'))
}

/// Splits a request target into its path and its query.
pub fn split_target(t: &str) -> (r: (String, String))
    ensures
        r.0@ == target_path(t@),
        r.1@ == target_query(t@),
{
    proof { lemma_first_at(t@, '?'); }
    let n = t.unicode_len();
    let k = char_index(t, '?');
    let path = String::from_str(t.substring_char(0, k));
    if k == n {
        proof { lemma_first_at(Seq::<char>::empty(), '#'); }
        assert(Seq::<char>::empty().subrange(0, 0) =~= Seq::<char>::empty());
        return (path, String::new());
    }
    let rest = t.substring_char(k + 1, n);
    proof { lemma_first_at(rest@, '#'); }
    let h = char_index(rest, '#');
    (path, String::from_str(rest.substring_char(0, h)))
}

/// The value of the first pair named `key`.
pub open spec fn first_value(pairs: Seq<(Seq<char>, Seq<char>)>, key: Seq<char>) -> Option<
    Seq<char>,
>
    decreases pairs.len(),
{
    if pairs.len() == 0 {
        None
    } else if pairs[0].0 == key {
        Some(pairs[0].1)
    } else {
        first_value(pairs.drop_first(), key)
    }
}

/// Looks up the value of the first pair named `key`.
pub fn find_value(pairs: &Vec<(String, String)>, key: &String) -> (r: Option<String>)
    ensures
        r.is_some() == first_value(pairs_view(pairs@), key@).is_some(),
        r.is_some() ==> first_value(pairs_view(pairs@), key@) == Some(r.unwrap()@),
{
    let ghost all = pairs_view(pairs@);
    assert(all.subrange(0, all.len() as int) =~= all);
    let mut i: usize = 0;
    while i < pairs.len()
        invariant
            i <= pairs@.len(),
            all == pairs_view(pairs@),
            first_value(all, key@) == first_value(all.subrange(i as int, all.len() as int), key@),
        decreases pairs.len() - i,
    {
        let ghost rest = all.subrange(i as int, all.len() as int);
        assert(rest.drop_first() =~= all.subrange(i + 1, all.len() as int));
        assert(rest[0] == (pairs@[i as int].0@, pairs@[i as int].1@));
        if pairs[i].0 == *key {
            return Some(pairs[i].1.clone());
        }
        i = i + 1;
    }
    None
}

/// Decodes a query text and looks up the value of the first pair named `key`.
pub fn query_value(query: &str, key: &String) -> (r: Option<String>)
    ensures
        r.is_some() == first_value(form_decoded(query@), key@).is_some(),
        r.is_some() ==> first_value(form_decoded(query@), key@) == Some(r.unwrap()@),
{
    let pairs = decode_pairs(query);
    find_value(&pairs, key)
}

} // verus!
