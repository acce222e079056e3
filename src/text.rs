//! Character-level helpers on strings: equality and splitting on a separator.

use vstd::prelude::*;
use vstd::string::*;

verus! {

/// The fields of `s` between occurrences of `sep`, as `str::split` yields
/// them: an empty input gives one empty field, and two adjacent separators
/// give an empty field between them.
pub open spec fn fields(s: Seq<char>, sep: char) -> Seq<Seq<char>>
    decreases s.len(),
{
    if s.len() == 0 {
        seq![Seq::<char>::empty()]
    } else {
        let pre = fields(s.drop_last(), sep);
        if s.last() == sep {
            pre.push(Seq::<char>::empty())
        } else {
            pre.update(pre.len() - 1, pre.last().push(s.last()))
        }
    }
}

/// The views of a vector of strings.
pub open spec fn views(v: Seq<String>) -> Seq<Seq<char>> {
    v.map_values(|x: String| x@)
}

/// The view of an optional string.
pub open spec fn opt_view(o: Option<String>) -> Option<Seq<char>> {
    match o {
        Some(s) => Some(s@),
        None => None,
    }
}

/// The view of an optional string slice.
pub open spec fn opt_str_view(o: Option<&str>) -> Option<Seq<char>> {
    match o {
        Some(s) => Some(s@),
        None => None,
    }
}

/// Whether two strings hold the same characters.
pub fn same_text(a: &str, b: &str) -> (r: bool)
    ensures
        r == (a@ == b@),
{
    let n = a.unicode_len();
    if n != b.unicode_len() {
        return false;
    }
    let mut i: usize = 0;
    while i < n
        invariant
            n == a@.len(),
            n == b@.len(),
            i <= n,
            forall|j: int| 0 <= j < i ==> a@[j] == b@[j],
        decreases n - i,
    {
        if a.get_char(i) != b.get_char(i) {
            return false;
        }
        i = i + 1;
    }
    assert(a@ =~= b@);
    true
}

/// Splits `s` at every occurrence of `sep`.
pub fn split_fields(s: &str, sep: char) -> (r: Vec<String>)
    ensures
        views(r@) == fields(s@, sep),
{
    let n = s.unicode_len();
    let mut done: Vec<String> = Vec::new();
    let mut start: usize = 0;
    let mut i: usize = 0;
    proof {
        assert(views(done@) =~= Seq::<Seq<char>>::empty());
        assert(s@.subrange(0, 0) =~= Seq::<char>::empty());
        assert(fields(Seq::<char>::empty(), sep) == seq![Seq::<char>::empty()]);
        assert(views(done@).push(s@.subrange(0, 0)) =~= fields(s@.subrange(0, 0), sep));
    }
    while i < n
        invariant
            n == s@.len(),
            start <= i <= n,
            views(done@).push(s@.subrange(start as int, i as int)) == fields(
                s@.subrange(0, i as int),
                sep,
            ),
        decreases n - i,
    {
        let c = s.get_char(i);
        let ghost before = views(done@);
        let ghost cur = s@.subrange(start as int, i as int);
        proof {
            let t = s@.subrange(0, i as int + 1);
            assert(t.drop_last() =~= s@.subrange(0, i as int));
            assert(t.last() == c);
        }
        if c == sep {
            let piece = String::from_str(s.substring_char(start, i));
            done.push(piece);
            start = i + 1;
            proof {
                assert(views(done@) =~= before.push(cur));
                assert(s@.subrange(start as int, i as int + 1) =~= Seq::<char>::empty());
                assert(views(done@).push(s@.subrange(start as int, i as int + 1)) =~= before.push(
                    cur,
                ).push(Seq::<char>::empty()));
            }
        } else {
            proof {
                assert(s@.subrange(start as int, i as int + 1) =~= cur.push(c));
                assert(before.push(cur).update(before.len() as int, cur.push(c)) =~= before.push(
                    cur.push(c),
                ));
            }
        }
        i = i + 1;
    }
    let last = String::from_str(s.substring_char(start, n));
    let ghost before = views(done@);
    done.push(last);
    proof {
        assert(s@.subrange(0, n as int) =~= s@);
        assert(views(done@) =~= before.push(last@));
    }
    done
}

} // verus!
