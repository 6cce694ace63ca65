use vstd::prelude::*;

verus! {

/// Carriage return.
pub const CR: u8 = 13;

/// Line feed.
pub const LF: u8 = 10;

/// Space.
pub const SP: u8 = 32;

/// Colon.
pub const COLON: u8 = 58;

/// The line ending of the wire format.
pub open spec fn crlf() -> Seq<u8> {
    seq![13u8, 10u8]
}

/// The blank line that ends a message head: two line endings in a row.
pub open spec fn terminator() -> Seq<u8> {
    seq![13u8, 10u8, 13u8, 10u8]
}

/// The separator between a header's name and its value.
pub open spec fn colon_space() -> Seq<u8> {
    seq![58u8, 32u8]
}

/// The separator between the tokens of a request line.
pub open spec fn space() -> Seq<u8> {
    seq![32u8]
}

/// True when `pat` occurs in `s` starting at index `i`.
pub open spec fn matches_at(s: Seq<u8>, pat: Seq<u8>, i: int) -> bool {
    &&& 0 <= i
    &&& i + pat.len() <= s.len()
    &&& s.subrange(i, i + pat.len()) == pat
}

/// The index of the first occurrence of `pat` in `s` that starts at `from` or
/// later, if there is one.
pub open spec fn find_from(s: Seq<u8>, pat: Seq<u8>, from: int) -> Option<int>
    decreases s.len() + 1 - from,
{
    if from < 0 || from + pat.len() > s.len() {
        None
    } else if matches_at(s, pat, from) {
        Some(from)
    } else {
        find_from(s, pat, from + 1)
    }
}

/// The index of the first occurrence of `pat` in `s`, if there is one.
pub open spec fn find(s: Seq<u8>, pat: Seq<u8>) -> Option<int> {
    find_from(s, pat, 0)
}

/// An occurrence is the same thing as agreeing byte by byte.
pub proof fn lemma_matches_at_bytes(s: Seq<u8>, pat: Seq<u8>, i: int)
    ensures
        matches_at(s, pat, i) <==> (0 <= i && i + pat.len() <= s.len() && forall|k: int|
            0 <= k < pat.len() ==> s[i + k] == #[trigger] pat[k]),
{
    if 0 <= i && i + pat.len() <= s.len() {
        let sub = s.subrange(i, i + pat.len());
        if sub == pat {
            assert forall|k: int| 0 <= k < pat.len() implies s[i + k] == #[trigger] pat[k] by {
                assert(sub[k] == s[i + k]);
            }
        }
        if forall|k: int| 0 <= k < pat.len() ==> s[i + k] == #[trigger] pat[k] {
            assert(sub =~= pat);
        }
    }
}

/// What an occurrence of a line ending means, byte by byte.
pub proof fn lemma_crlf_at(s: Seq<u8>, i: int)
    ensures
        matches_at(s, crlf(), i) <==> (0 <= i && i + 2 <= s.len() && s[i] == 13 && s[i + 1] == 10),
{
    lemma_matches_at_bytes(s, crlf(), i);
    if 0 <= i && i + 2 <= s.len() {
        assert(crlf()[0] == 13 && crlf()[1] == 10);
    }
}

/// What an occurrence of the blank line means, byte by byte.
pub proof fn lemma_terminator_at(s: Seq<u8>, i: int)
    ensures
        matches_at(s, terminator(), i) <==> (0 <= i && i + 4 <= s.len() && s[i] == 13 && s[i + 1]
            == 10 && s[i + 2] == 13 && s[i + 3] == 10),
{
    lemma_matches_at_bytes(s, terminator(), i);
    if 0 <= i && i + 4 <= s.len() {
        let t = terminator();
        assert(t[0] == 13 && t[1] == 10 && t[2] == 13 && t[3] == 10);
    }
}

/// What an occurrence of the name separator means, byte by byte.
pub proof fn lemma_colon_space_at(s: Seq<u8>, i: int)
    ensures
        matches_at(s, colon_space(), i) <==> (0 <= i && i + 2 <= s.len() && s[i] == 58 && s[i + 1]
            == 32),
{
    lemma_matches_at_bytes(s, colon_space(), i);
    if 0 <= i && i + 2 <= s.len() {
        assert(colon_space()[0] == 58 && colon_space()[1] == 32);
    }
}

/// What an occurrence of a space means.
pub proof fn lemma_space_at(s: Seq<u8>, i: int)
    ensures
        matches_at(s, space(), i) <==> (0 <= i < s.len() && s[i] == 32),
{
    lemma_matches_at_bytes(s, space(), i);
    if 0 <= i && i + 1 <= s.len() {
        assert(space()[0] == 32);
    }
}

/// `find_from` returns the first occurrence at or after `from`, and `None`
/// only when there is none.
pub proof fn lemma_find_from(s: Seq<u8>, pat: Seq<u8>, from: int)
    requires
        0 <= from,
    ensures
        match find_from(s, pat, from) {
            Some(i) => {
                &&& from <= i
                &&& matches_at(s, pat, i)
                &&& forall|j: int| from <= j < i ==> !matches_at(s, pat, j)
            },
            None => forall|j: int| from <= j ==> !matches_at(s, pat, j),
        },
    decreases s.len() + 1 - from,
{
    if from + pat.len() > s.len() {
    } else if matches_at(s, pat, from) {
    } else {
        lemma_find_from(s, pat, from + 1);
    }
}

/// An occurrence with none before it is the one that `find_from` returns.
pub proof fn lemma_find_from_is(s: Seq<u8>, pat: Seq<u8>, from: int, i: int)
    requires
        0 <= from <= i,
        matches_at(s, pat, i),
        forall|j: int| from <= j < i ==> !matches_at(s, pat, j),
    ensures
        find_from(s, pat, from) == Some(i),
{
    lemma_find_from(s, pat, from);
}

/// Where there is no occurrence at or after `from`, `find_from` returns `None`.
pub proof fn lemma_find_from_none(s: Seq<u8>, pat: Seq<u8>, from: int)
    requires
        forall|j: int| from <= j ==> !matches_at(s, pat, j),
    ensures
        find_from(s, pat, from) is None,
{
    if from >= 0 {
        lemma_find_from(s, pat, from);
    }
}

/// Occurrences in a suffix are the occurrences of the whole, shifted.
pub proof fn lemma_matches_at_skip(s: Seq<u8>, pat: Seq<u8>, from: int, i: int)
    requires
        0 <= from <= s.len(),
        0 <= i,
    ensures
        matches_at(s.skip(from), pat, i) <==> matches_at(s, pat, from + i),
{
    if i + pat.len() <= s.skip(from).len() {
        assert(s.skip(from).subrange(i, i + pat.len()) =~= s.subrange(
            from + i,
            from + i + pat.len(),
        ));
    }
}

/// Searching from `from` is searching the suffix that starts at `from`.
pub proof fn lemma_find_from_skip(s: Seq<u8>, pat: Seq<u8>, from: int)
    requires
        0 <= from <= s.len(),
    ensures
        find_from(s, pat, from) == match find(s.skip(from), pat) {
            Some(i) => Some(from + i),
            None => None,
        },
{
    let t = s.skip(from);
    lemma_find_from(t, pat, 0);
    match find(t, pat) {
        Some(i) => {
            lemma_matches_at_skip(s, pat, from, i);
            assert forall|j: int| from <= j < from + i implies !matches_at(s, pat, j) by {
                lemma_matches_at_skip(s, pat, from, j - from);
            }
            lemma_find_from_is(s, pat, from, from + i);
        },
        None => {
            assert forall|j: int| from <= j implies !matches_at(s, pat, j) by {
                lemma_matches_at_skip(s, pat, from, j - from);
            }
            lemma_find_from_none(s, pat, from);
        },
    }
}

/// Occurrences in a prefix are occurrences of the whole.
pub proof fn lemma_matches_at_prefix(s: Seq<u8>, t: Seq<u8>, pat: Seq<u8>, i: int)
    ensures
        matches_at(s, pat, i) ==> matches_at(s + t, pat, i),
        matches_at(s + t, pat, i) && i + pat.len() <= s.len() ==> matches_at(s, pat, i),
{
    lemma_matches_at_bytes(s, pat, i);
    lemma_matches_at_bytes(s + t, pat, i);
}

/// The first occurrence in a sequence is still the first after more bytes are
/// appended.
pub proof fn lemma_find_stable(s: Seq<u8>, t: Seq<u8>, pat: Seq<u8>)
    ensures
        find(s, pat) is Some ==> find(s + t, pat) == find(s, pat),
{
    lemma_find_from(s, pat, 0);
    if let Some(i) = find(s, pat) {
        lemma_matches_at_prefix(s, t, pat, i);
        assert forall|j: int| 0 <= j < i implies !matches_at(s + t, pat, j) by {
            lemma_matches_at_prefix(s, t, pat, j);
        }
        lemma_find_from_is(s + t, pat, 0, i);
    }
}

/// After a search that found nothing, only the last `pat.len() - 1` bytes can
/// begin an occurrence once more bytes are appended: the search may resume
/// there.
pub proof fn lemma_find_resume(s: Seq<u8>, t: Seq<u8>, pat: Seq<u8>, from: int)
    requires
        find(s, pat) is None,
        0 <= from,
        from == 0 || from + pat.len() <= s.len() + 1,
    ensures
        find(s + t, pat) == find_from(s + t, pat, from),
{
    lemma_find_from(s, pat, 0);
    lemma_find_from(s + t, pat, from);
    assert forall|j: int| 0 <= j < from implies !matches_at(s + t, pat, j) by {
        lemma_matches_at_prefix(s, t, pat, j);
    }
    match find_from(s + t, pat, from) {
        Some(i) => {
            lemma_find_from_is(s + t, pat, 0, i);
        },
        None => {
            lemma_find_from_none(s + t, pat, 0);
        },
    }
}

/// Tells whether `pat` occurs in `hay` at index `i`.
pub fn occurs_at(hay: &[u8], pat: &[u8], i: usize) -> (r: bool)
    ensures
        r == matches_at(hay@, pat@, i as int),
{
    if pat.len() > hay.len() || i > hay.len() - pat.len() {
        return false;
    }
    proof {
        lemma_matches_at_bytes(hay@, pat@, i as int);
    }
    let mut k: usize = 0;
    while k < pat.len()
        invariant
            k <= pat.len(),
            i + pat.len() <= hay.len(),
            forall|j: int| 0 <= j < k ==> hay@[i + j] == #[trigger] pat@[j],
        decreases pat.len() - k,
    {
        if hay[i + k] != pat[k] {
            return false;
        }
        k += 1;
    }
    true
}

/// Finds the first occurrence of `pat` in `hay` that starts at `from` or later.
pub fn find_in(hay: &[u8], pat: &[u8], from: usize) -> (r: Option<usize>)
    ensures
        r is Some <==> find_from(hay@, pat@, from as int) is Some,
        r matches Some(i) ==> find_from(hay@, pat@, from as int) == Some(i as int),
{
    if pat.len() > hay.len() || from > hay.len() - pat.len() {
        return None;
    }
    let last = hay.len() - pat.len();
    let mut i: usize = from;
    loop
        invariant
            from <= i <= last,
            last == hay.len() - pat.len(),
            find_from(hay@, pat@, from as int) == find_from(hay@, pat@, i as int),
        decreases last - i,
    {
        if occurs_at(hay, pat, i) {
            return Some(i);
        }
        if i == last {
            assert(find_from(hay@, pat@, i + 1) is None);
            return None;
        }
        i += 1;
    }
}

/// Finds the first line ending in `hay` that starts at `from` or later.
pub fn find_crlf(hay: &[u8], from: usize) -> (r: Option<usize>)
    ensures
        r is Some <==> find_from(hay@, crlf(), from as int) is Some,
        r matches Some(i) ==> find_from(hay@, crlf(), from as int) == Some(i as int),
{
    let pat: [u8; 2] = [CR, LF];
    assert(pat@ =~= crlf());
    find_in(hay, pat.as_slice(), from)
}

/// Finds the first blank line in `hay` that starts at `from` or later.
pub fn find_terminator(hay: &[u8], from: usize) -> (r: Option<usize>)
    ensures
        r is Some <==> find_from(hay@, terminator(), from as int) is Some,
        r matches Some(i) ==> find_from(hay@, terminator(), from as int) == Some(i as int),
{
    let pat: [u8; 4] = [CR, LF, CR, LF];
    assert(pat@ =~= terminator());
    find_in(hay, pat.as_slice(), from)
}

/// Finds the first `": "` in `hay` that starts at `from` or later.
pub fn find_colon_space(hay: &[u8], from: usize) -> (r: Option<usize>)
    ensures
        r is Some <==> find_from(hay@, colon_space(), from as int) is Some,
        r matches Some(i) ==> find_from(hay@, colon_space(), from as int) == Some(i as int),
{
    let pat: [u8; 2] = [COLON, SP];
    assert(pat@ =~= colon_space());
    find_in(hay, pat.as_slice(), from)
}

/// Finds the first space in `hay` at index `from` or later.
pub fn find_space(hay: &[u8], from: usize) -> (r: Option<usize>)
    ensures
        r is Some <==> find_from(hay@, space(), from as int) is Some,
        r matches Some(i) ==> find_from(hay@, space(), from as int) == Some(i as int),
{
    let pat: [u8; 1] = [SP];
    assert(pat@ =~= space());
    find_in(hay, pat.as_slice(), from)
}

} // verus!
