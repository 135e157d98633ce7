use vstd::prelude::*;

verus! {

/// The pieces of `s` between its '&' separators, in order: one more piece than
/// there are separators, empty pieces included (as `str::split('&')` gives them).
pub open spec fn split_pieces(s: Seq<char>) -> Seq<Seq<char>>
    decreases s.len(),
{
    if s.len() == 0 {
        seq![Seq::empty()]
    } else {
        let before = split_pieces(s.drop_last());
        if s.last() == '&' {
            before.push(Seq::empty())
        } else {
            before.update(before.len() - 1, before.last().push(s.last()))
        }
    }
}

/// The value of a piece that starts with "names=", or `None` for another piece.
pub open spec fn named_value(piece: Seq<char>) -> Option<Seq<char>> {
    if piece.len() >= "names="@.len() && piece.take("names="@.len() as int) == "names="@ {
        Some(piece.skip("names="@.len() as int))
    } else {
        None
    }
}

/// The values of the "names=" pieces among `pieces`, in order.
pub open spec fn names_in(pieces: Seq<Seq<char>>) -> Seq<Seq<char>>
    decreases pieces.len(),
{
    if pieces.len() == 0 {
        Seq::empty()
    } else {
        let before = names_in(pieces.drop_last());
        match named_value(pieces.last()) {
            Some(v) => before.push(v),
            None => before,
        }
    }
}

/// The city names that a query string carries, one per "names=" piece.
pub open spec fn query_names(query: Seq<char>) -> Seq<Seq<char>> {
    names_in(split_pieces(query))
}

/// The city names of a request, read from its query string.
pub struct CityQuery {
    pub names: Vec<String>,
}

impl View for CityQuery {
    type V = Seq<Seq<char>>;

    open spec fn view(&self) -> Seq<Seq<char>> {
        self.names@.map_values(|n: String| n@)
    }
}

/// The value of a "names=" piece, or `None` for another piece.
fn name_value(piece: &str) -> (r: Option<String>)
    ensures
        match r {
            Some(v) => named_value(piece@) == Some(v@),
            None => named_value(piece@) is None,
        },
{
    let prefix = "names=";
    proof {
        reveal_strlit("names=");
    }
    let prefix_len = prefix.unicode_len();
    let piece_len = piece.unicode_len();
    if piece_len < prefix_len {
        return None;
    }
    let mut j: usize = 0;
    while j < prefix_len
        invariant
            j <= prefix_len <= piece_len,
            prefix_len == prefix@.len(),
            piece_len == piece@.len(),
            prefix@ == "names="@,
            forall|k: int| 0 <= k < j ==> piece@[k] == prefix@[k],
        decreases prefix_len - j,
    {
        if piece.get_char(j) != prefix.get_char(j) {
            assert(piece@.take(prefix_len as int)[j as int] != prefix@[j as int]);
            return None;
        }
        j = j + 1;
    }
    assert(piece@.take(prefix_len as int) =~= prefix@);
    Some(String::from_str(piece.substring_char(prefix_len, piece_len)))
}

impl CityQuery {
    /// Reads the city names from a raw query string: the values of its
    /// "names=" pieces, in order, as they stand (no decoding).
    pub fn from_query(query: &str) -> (r: CityQuery)
        ensures
            r@ == query_names(query@),
    {
        let n = query.unicode_len();
        let mut names: Vec<String> = Vec::new();
        let mut start: usize = 0;
        let mut i: usize = 0;
        let ghost mut done: Seq<Seq<char>> = Seq::empty();
        assert(query@.take(0) =~= Seq::<char>::empty());
        assert(split_pieces(Seq::<char>::empty()) =~= done.push(query@.subrange(0, 0)));
        while i < n
            invariant
                n == query@.len(),
                start <= i <= n,
                split_pieces(query@.take(i as int)) == done.push(query@.subrange(start as int, i as int)),
                names@.map_values(|s: String| s@) == names_in(done),
            decreases n - i,
        {
            let c = query.get_char(i);
            let ghost before = query@.take(i as int);
            let ghost piece = query@.subrange(start as int, i as int);
            assert(query@.take(i + 1).drop_last() =~= before);
            assert(query@.take(i + 1).last() == c);
            if c == '&' {
                let value = name_value(query.substring_char(start, i));
                assert(done.push(piece).drop_last() =~= done);
                match value {
                    Some(v) => {
                        names.push(v);
                        assert(names@.map_values(|s: String| s@) =~= names_in(done).push(v@));
                    },
                    None => {},
                }
                proof {
                    done = done.push(piece);
                }
                start = i + 1;
                assert(query@.subrange(start as int, start as int) =~= Seq::<char>::empty());
            } else {
                assert(piece.push(c) =~= query@.subrange(start as int, i + 1));
                assert(done.push(piece).update(done.len() as int, piece.push(c)) =~= done.push(
                    piece.push(c),
                ));
            }
            i = i + 1;
        }
        assert(query@.take(n as int) =~= query@);
        let ghost last = query@.subrange(start as int, n as int);
        let value = name_value(query.substring_char(start, n));
        assert(done.push(last).drop_last() =~= done);
        match value {
            Some(v) => {
                names.push(v);
                assert(names@.map_values(|s: String| s@) =~= names_in(done).push(v@));
            },
            None => {},
        }
        CityQuery { names }
    }
}

} // verus!
