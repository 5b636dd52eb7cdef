//! Where a request carries its token: in the `Authorization` header, or in
//! the query. Both are read as bytes.

use vstd::prelude::*;

verus! {

/// The bytes of `Bearer `, the scheme that a header may name.
pub open spec fn bearer_scheme() -> Seq<u8> {
    seq![66u8, 101u8, 97u8, 114u8, 101u8, 114u8, 32u8]
}

/// The bytes of `token=`.
pub open spec fn token_key() -> Seq<u8> {
    seq![116u8, 111u8, 107u8, 101u8, 110u8, 61u8]
}

/// The bytes of `authorization=`.
pub open spec fn authorization_key() -> Seq<u8> {
    seq![
        97u8,
        117u8,
        116u8,
        104u8,
        111u8,
        114u8,
        105u8,
        122u8,
        97u8,
        116u8,
        105u8,
        111u8,
        110u8,
        61u8,
    ]
}

/// The byte `&`, which parts the pairs of a query.
pub const PAIR_SEPARATOR: u8 = 38;

/// The byte `=`, which parts a key from its value.
pub const VALUE_SEPARATOR: u8 = 61;

/// Whether `text` begins with `prefix`.
pub open spec fn starts_with(text: Seq<u8>, prefix: Seq<u8>) -> bool {
    prefix.len() <= text.len() && text.subrange(0, prefix.len() as int) == prefix
}

/// `text` without the occurrences of a pattern that is not empty: they are
/// looked for from the left, and none overlaps another.
pub open spec fn without(text: Seq<u8>, pattern: Seq<u8>) -> Seq<u8>
    decreases text.len(),
{
    if pattern.len() == 0 || text.len() == 0 {
        text
    } else if starts_with(text, pattern) {
        without(text.subrange(pattern.len() as int, text.len() as int), pattern)
    } else {
        seq![text[0]] + without(text.subrange(1, text.len() as int), pattern)
    }
}

/// The number of bytes that stand before the first `stop` in `text`; all of
/// them where there is no `stop`.
pub open spec fn span(text: Seq<u8>, stop: u8) -> int
    decreases text.len(),
{
    if text.len() == 0 || text[0] == stop {
        0
    } else {
        1 + span(text.subrange(1, text.len() as int), stop)
    }
}

/// Whether `count` bytes stand before the first `stop` in `text`.
pub open spec fn is_span(text: Seq<u8>, stop: u8, count: int) -> bool {
    &&& 0 <= count <= text.len()
    &&& forall|at: int| 0 <= at < count ==> #[trigger] text[at] != stop
    &&& count < text.len() ==> text[count] == stop
}

/// The span is the one count of bytes before the first `stop`.
pub proof fn lemma_span_is(text: Seq<u8>, stop: u8, count: int)
    requires
        is_span(text, stop, count),
    ensures
        span(text, stop) == count,
    decreases count,
{
    if count > 0 {
        assert(text[0] != stop);
        let rest = text.subrange(1, text.len() as int);
        assert forall|at: int| 0 <= at < count - 1 implies #[trigger] rest[at] != stop by {
            assert(rest[at] == text[at + 1]);
        }
        lemma_span_is(rest, stop, count - 1);
    }
}

/// That many bytes do stand before the first `stop`.
pub proof fn lemma_span(text: Seq<u8>, stop: u8)
    ensures
        is_span(text, stop, span(text, stop)),
    decreases text.len(),
{
    if text.len() == 0 || text[0] == stop {
    } else {
        let rest = text.subrange(1, text.len() as int);
        lemma_span(rest, stop);
        let count = span(text, stop);
        assert forall|at: int| 0 <= at < count implies #[trigger] text[at] != stop by {
            if at > 0 {
                assert(rest[at - 1] == text[at]);
            }
        }
        if count < text.len() {
            assert(rest[count - 1] == text[count]);
        }
    }
}

/// The piece of `text` that stands before the first `stop`.
pub open spec fn first_piece(text: Seq<u8>, stop: u8) -> Seq<u8> {
    text.subrange(0, span(text, stop))
}

/// What follows the first `stop` in `text`, if there is a `stop`.
pub open spec fn after_first(text: Seq<u8>, stop: u8) -> Option<Seq<u8>> {
    if span(text, stop) < text.len() {
        Some(text.subrange(span(text, stop) + 1, text.len() as int))
    } else {
        None
    }
}

/// Whether a pair of a query is one that carries a token.
pub open spec fn carries_token(pair: Seq<u8>) -> bool {
    starts_with(pair, token_key()) || starts_with(pair, authorization_key())
}

/// The first pair of a query that carries a token. The pairs are the pieces
/// between the `&`.
pub open spec fn token_pair(query: Seq<u8>) -> Option<Seq<u8>>
    decreases query.len(),
{
    if carries_token(first_piece(query, PAIR_SEPARATOR)) {
        Some(first_piece(query, PAIR_SEPARATOR))
    } else {
        match after_first(query, PAIR_SEPARATOR) {
            Some(rest) => {
                proof {
                    lemma_span(query, PAIR_SEPARATOR);
                }
                token_pair(rest)
            },
            None => None,
        }
    }
}

/// The second of the pieces that `=` parts a pair into.
pub open spec fn value_of(pair: Seq<u8>) -> Option<Seq<u8>> {
    match after_first(pair, VALUE_SEPARATOR) {
        Some(rest) => Some(first_piece(rest, VALUE_SEPARATOR)),
        None => None,
    }
}

/// The token that a query carries: the value of its first pair that begins
/// with `token=` or `authorization=`.
pub open spec fn token_in_query(query: Seq<u8>) -> Option<Seq<u8>> {
    match token_pair(query) {
        Some(pair) => value_of(pair),
        None => None,
    }
}

/// The token that a request carries. A request with an `Authorization`
/// header carries what the header says, without any `Bearer `; the query is
/// looked at only where there is no such header.
pub open spec fn token_of(authorization: Option<Seq<u8>>, query: Seq<u8>) -> Option<Seq<u8>> {
    match authorization {
        Some(header) => Some(without(header, bearer_scheme())),
        None => token_in_query(query),
    }
}

fn begins_with(text: &[u8], from: usize, until: usize, prefix: &[u8]) -> (begins: bool)
    requires
        from <= until <= text@.len(),
    ensures
        begins == starts_with(text@.subrange(from as int, until as int), prefix@),
{
    let ghost piece = text@.subrange(from as int, until as int);
    if prefix.len() > until - from {
        return false;
    }
    let mut at: usize = 0;
    while at < prefix.len()
        invariant
            at <= prefix@.len() <= until - from,
            from <= until <= text@.len(),
            piece == text@.subrange(from as int, until as int),
            forall|before: int| 0 <= before < at ==> piece[before] == #[trigger] prefix@[before],
        decreases prefix@.len() - at,
    {
        if text[from + at] != prefix[at] {
            assert(piece.subrange(0, prefix@.len() as int)[at as int] == piece[at as int]);
            return false;
        }
        at += 1;
    }
    assert(piece.subrange(0, prefix@.len() as int) =~= prefix@);
    true
}

/// Copies `text` without the occurrences of `pattern`. An empty pattern
/// occurs nowhere.
pub fn remove_all(text: &[u8], pattern: &[u8]) -> (rest: Vec<u8>)
    ensures
        rest@ == without(text@, pattern@),
{
    let length = text.len();
    assert(text@.subrange(0, length as int) =~= text@);
    if pattern.len() == 0 {
        return copy(text, 0, length);
    }
    let mut rest: Vec<u8> = Vec::new();
    let mut at: usize = 0;
    while at < length
        invariant
            at <= length,
            length == text@.len(),
            pattern@.len() > 0,
            rest@ + without(text@.subrange(at as int, length as int), pattern@) == without(
                text@,
                pattern@,
            ),
        decreases length - at,
    {
        let ghost here = text@.subrange(at as int, length as int);
        if begins_with(text, at, length, pattern) {
            assert(here.subrange(pattern@.len() as int, here.len() as int) =~= text@.subrange(
                at + pattern@.len(),
                length as int,
            ));
            at += pattern.len();
        } else {
            assert(here.subrange(1, here.len() as int) =~= text@.subrange(at + 1, length as int));
            assert(rest@.push(text@[at as int]) + without(
                text@.subrange(at + 1, length as int),
                pattern@,
            ) =~= rest@ + (seq![here[0]] + without(
                text@.subrange(at + 1, length as int),
                pattern@,
            )));
            rest.push(text[at]);
            at += 1;
        }
    }
    assert(rest@ + Seq::<u8>::empty() =~= rest@);
    rest
}

fn find(text: &[u8], from: usize, until: usize, stop: u8) -> (at: usize)
    requires
        from <= until <= text@.len(),
    ensures
        from <= at <= until,
        at - from == span(text@.subrange(from as int, until as int), stop),
{
    let ghost piece = text@.subrange(from as int, until as int);
    let mut at: usize = from;
    while at < until
        invariant
            from <= at <= until <= text@.len(),
            piece == text@.subrange(from as int, until as int),
            forall|before: int| 0 <= before < at - from ==> #[trigger] piece[before] != stop,
        decreases until - at,
    {
        if text[at] == stop {
            proof {
                lemma_span_is(piece, stop, at - from);
            }
            return at;
        }
        at += 1;
    }
    proof {
        lemma_span_is(piece, stop, at - from);
    }
    at
}

fn copy(text: &[u8], from: usize, until: usize) -> (piece: Vec<u8>)
    requires
        from <= until <= text@.len(),
    ensures
        piece@ == text@.subrange(from as int, until as int),
{
    let mut piece: Vec<u8> = Vec::new();
    let mut at: usize = from;
    while at < until
        invariant
            from <= at <= until <= text@.len(),
            piece@ == text@.subrange(from as int, at as int),
        decreases until - at,
    {
        piece.push(text[at]);
        assert(piece@ =~= text@.subrange(from as int, at + 1));
        at += 1;
    }
    piece
}

/// The view of optional bytes.
pub open spec fn bytes_view(bytes: Option<Vec<u8>>) -> Option<Seq<u8>> {
    match bytes {
        Some(found) => Some(found@),
        None => None,
    }
}

/// The view of an optional slice.
pub open spec fn slice_view(bytes: Option<&[u8]>) -> Option<Seq<u8>> {
    match bytes {
        Some(found) => Some(found@),
        None => None,
    }
}

fn value_in(text: &[u8], from: usize, until: usize) -> (value: Option<Vec<u8>>)
    requires
        from <= until <= text@.len(),
    ensures
        bytes_view(value) == value_of(text@.subrange(from as int, until as int)),
{
    let ghost pair = text@.subrange(from as int, until as int);
    let parted = find(text, from, until, VALUE_SEPARATOR);
    if parted == until {
        return None;
    }
    let ghost rest = pair.subrange(parted - from + 1, pair.len() as int);
    assert(rest =~= text@.subrange(parted + 1, until as int));
    let end = find(text, parted + 1, until, VALUE_SEPARATOR);
    let value = copy(text, parted + 1, end);
    assert(value@ =~= rest.subrange(0, end - parted - 1));
    Some(value)
}

/// Looks for the token in a query.
pub fn query_token(query: &[u8]) -> (token: Option<Vec<u8>>)
    ensures
        bytes_view(token) == token_in_query(query@),
{
    let token_key: Vec<u8> = vec![116u8, 111u8, 107u8, 101u8, 110u8, 61u8];
    let authorization_key: Vec<u8> = vec![
        97u8,
        117u8,
        116u8,
        104u8,
        111u8,
        114u8,
        105u8,
        122u8,
        97u8,
        116u8,
        105u8,
        111u8,
        110u8,
        61u8,
    ];
    assert(token_key@ =~= self::token_key());
    assert(authorization_key@ =~= self::authorization_key());
    let length = query.len();
    let mut from: usize = 0;
    assert(query@.subrange(0, length as int) =~= query@);
    loop
        invariant
            from <= length,
            length == query@.len(),
            token_key@ == self::token_key(),
            authorization_key@ == self::authorization_key(),
            token_in_query(query@.subrange(from as int, length as int)) == token_in_query(query@),
        decreases length - from,
    {
        let ghost here = query@.subrange(from as int, length as int);
        let end = find(query, from, length, PAIR_SEPARATOR);
        assert(first_piece(here, PAIR_SEPARATOR) =~= query@.subrange(from as int, end as int));
        if begins_with(query, from, end, token_key.as_slice()) || begins_with(
            query,
            from,
            end,
            authorization_key.as_slice(),
        ) {
            return value_in(query, from, end);
        }
        if end == length {
            return None;
        }
        assert(after_first(here, PAIR_SEPARATOR) == Some(
            here.subrange(end - from + 1, here.len() as int),
        ));
        assert(here.subrange(end - from + 1, here.len() as int) =~= query@.subrange(
            end + 1,
            length as int,
        ));
        from = end + 1;
    }
}

} // verus!
