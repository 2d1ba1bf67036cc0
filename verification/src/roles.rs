//! The roles of a member as one text: the role tags, separated by commas.

use vstd::prelude::*;
use vstd::string::{StrSliceExecFns, StringExecFns};

verus! {

/// The parts of a text between its commas: a comma begins a new part, every
/// other character goes to the end of the last part. A text without a comma is
/// its own single part.
pub open spec fn comma_parts(s: Seq<char>) -> Seq<Seq<char>>
    decreases s.len(),
{
    if s.len() == 0 {
        seq![Seq::empty()]
    } else {
        let before = comma_parts(s.drop_last());
        if s.last() == ',' {
            before.push(Seq::empty())
        } else {
            before.drop_last().push(before.last().push(s.last()))
        }
    }
}

/// Texts joined with a comma between each two.
pub open spec fn comma_joined(parts: Seq<Seq<char>>) -> Seq<char>
    decreases parts.len(),
{
    if parts.len() == 0 {
        Seq::empty()
    } else if parts.len() == 1 {
        parts[0]
    } else {
        comma_joined(parts.drop_last()) + seq![','] + parts.last()
    }
}

/// The texts among the first `n` that are not empty.
pub open spec fn nonempty(parts: Seq<Seq<char>>, n: nat) -> Seq<Seq<char>>
    decreases n,
{
    if n == 0 {
        Seq::empty()
    } else {
        let rest = nonempty(parts, (n - 1) as nat);
        if parts[n - 1].len() == 0 {
            rest
        } else {
            rest.push(parts[n - 1])
        }
    }
}

/// The roles that a stored text names: its parts between commas that are not empty.
pub open spec fn roles_of(column: Seq<char>) -> Seq<Seq<char>> {
    nonempty(comma_parts(column), comma_parts(column).len())
}

/// The roles that a stored text names.
pub fn roles_from_column(column: &str) -> (r: Vec<String>)
    ensures
        r.deep_view() == roles_of(column@),
{
    let n = column.unicode_len();
    let ghost s = column@;
    let mut r: Vec<String> = Vec::new();
    let mut start: usize = 0;
    let mut i: usize = 0;
    // the parts that are complete, the empty ones among them too
    let ghost mut done: Seq<Seq<char>> = Seq::empty();
    proof {
        assert(s.take(0) =~= Seq::<char>::empty());
        assert(s.subrange(0, 0) =~= Seq::<char>::empty());
        assert(comma_parts(s.take(0)) =~= done.push(s.subrange(0, 0)));
        assert(r.deep_view() =~= nonempty(done, 0));
    }
    while i < n
        invariant
            start <= i <= n,
            n == s.len(),
            s == column@,
            comma_parts(s.take(i as int)) == done.push(s.subrange(start as int, i as int)),
            r.deep_view() == nonempty(done, done.len()),
        decreases n - i,
    {
        let c = column.get_char(i);
        proof {
            let next = s.take(i + 1);
            assert(next.drop_last() =~= s.take(i as int));
            assert(next.last() == c);
            let before = done.push(s.subrange(start as int, i as int));
            assert(before.drop_last() =~= done);
            assert(before.last() == s.subrange(start as int, i as int));
            assert(s.subrange(start as int, i as int).push(c) =~= s.subrange(
                start as int,
                i + 1,
            ));
        }
        if c == ',' {
            let ghost had = r.deep_view();
            let ghost part = s.subrange(start as int, i as int);
            if start < i {
                let piece = column.substring_char(start, i);
                r.push(piece.to_owned());
                proof {
                    assert(r.deep_view() =~= had.push(part));
                }
            }
            proof {
                let grown = done.push(part);
                assert(grown.drop_last() =~= done);
                assert(nonempty(grown, grown.len()) == if part.len() == 0 {
                    nonempty(grown, done.len())
                } else {
                    nonempty(grown, done.len()).push(part)
                });
                lemma_nonempty_prefix(grown, done, done.len());
                done = grown;
                assert(s.subrange(i + 1, i + 1) =~= Seq::<char>::empty());
            }
            start = i + 1;
        }
        i = i + 1;
    }
    let ghost had = r.deep_view();
    let ghost part = s.subrange(start as int, n as int);
    if start < n {
        let piece = column.substring_char(start, n);
        r.push(piece.to_owned());
        proof {
            assert(r.deep_view() =~= had.push(part));
        }
    }
    proof {
        assert(s.take(n as int) =~= s);
        let all = done.push(part);
        assert(all.drop_last() =~= done);
        lemma_nonempty_prefix(all, done, done.len());
    }
    r
}

/// What is kept of the first `n` texts does not depend on the texts behind them.
proof fn lemma_nonempty_prefix(a: Seq<Seq<char>>, b: Seq<Seq<char>>, n: nat)
    requires
        n <= a.len(),
        n <= b.len(),
        forall|i: int| 0 <= i < n ==> a[i] == b[i],
    ensures
        nonempty(a, n) == nonempty(b, n),
    decreases n,
{
    if n > 0 {
        lemma_nonempty_prefix(a, b, (n - 1) as nat);
    }
}

/// The text under which roles are stored: the role tags with commas between them.
pub fn roles_to_column(roles: &Vec<String>) -> (r: String)
    ensures
        r@ == comma_joined(roles.deep_view()),
{
    let ghost all = roles.deep_view();
    let mut r = String::new();
    let mut i: usize = 0;
    proof {
        reveal_strlit(",");
    }
    assert(all.take(0) =~= Seq::<Seq<char>>::empty());
    while i < roles.len()
        invariant
            i <= roles@.len(),
            all == roles.deep_view(),
            ","@ == seq![','],
            r@ == comma_joined(all.take(i as int)),
        decreases roles@.len() - i,
    {
        assert(all[i as int] == roles@[i as int]@);
        let ghost next = all.take(i + 1);
        assert(next.drop_last() =~= all.take(i as int));
        assert(next.last() == all[i as int]);
        if i > 0 {
            r.append(",");
        }
        r.append(roles[i].as_str());
        i = i + 1;
    }
    assert(all.take(i as int) =~= all);
    r
}

} // verus!
