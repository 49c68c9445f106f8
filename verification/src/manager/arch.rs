//! Recognising an Arch-based system from its `os-release` file.
use vstd::prelude::*;

use crate::text::{chars_of, has_prefix, lines, lines_chars, split_whitespace_chars, starts_with, views, words};

verus! {

/// `s` without its leading '"' characters.
pub open spec fn trim_quotes_start(s: Seq<char>) -> Seq<char>
    decreases s.len(),
{
    if s.len() > 0 && s[0] == '"' {
        trim_quotes_start(s.drop_first())
    } else {
        s
    }
}

/// `s` without its trailing '"' characters.
pub open spec fn trim_quotes_end(s: Seq<char>) -> Seq<char>
    decreases s.len(),
{
    if s.len() > 0 && s.last() == '"' {
        trim_quotes_end(s.drop_last())
    } else {
        s
    }
}

/// `str::trim_matches('"')`.
pub open spec fn trim_quotes(s: Seq<char>) -> Seq<char> {
    trim_quotes_end(trim_quotes_start(s))
}

/// The value of the last `ID=` line, unquoted; empty without one.
pub open spec fn os_id(ls: Seq<Seq<char>>) -> Seq<char>
    decreases ls.len(),
{
    if ls.len() == 0 {
        Seq::empty()
    } else if has_prefix(ls.last(), "ID="@) {
        trim_quotes(ls.last().skip(3))
    } else {
        os_id(ls.drop_last())
    }
}

/// The words of the last `ID_LIKE=` line, unquoted; none without one.
pub open spec fn os_id_like(ls: Seq<Seq<char>>) -> Seq<Seq<char>>
    decreases ls.len(),
{
    if ls.len() == 0 {
        Seq::empty()
    } else if has_prefix(ls.last(), "ID_LIKE="@) {
        words(trim_quotes(ls.last().skip(8)))
    } else {
        os_id_like(ls.drop_last())
    }
}

/// The system is Arch or says it is like Arch.
pub open spec fn arch_based(release: Seq<char>) -> bool {
    os_id(lines(release)) == "arch"@ || os_id_like(lines(release)).contains("arch"@)
}

fn unquoted_after(line: &Vec<char>, from: usize) -> (r: Vec<char>)
    requires
        from <= line@.len(),
    ensures
        r@ == trim_quotes(line@.skip(from as int)),
{
    let ghost rest = line@.skip(from as int);
    let mut i: usize = from;
    proof {
        assert(line@.skip(i as int) =~= rest);
    }
    while i < line.len() && line[i] == '"'
        invariant
            from <= i <= line@.len(),
            trim_quotes_start(rest) == trim_quotes_start(line@.skip(i as int)),
        decreases line.len() - i,
    {
        proof {
            assert(line@.skip(i as int).drop_first() =~= line@.skip(i + 1));
        }
        i = i + 1;
    }
    let ghost start = line@.skip(i as int);
    proof {
        assert(trim_quotes_start(start) == start);
    }
    let mut j: usize = line.len();
    proof {
        assert(line@.subrange(i as int, j as int) =~= start);
    }
    while j > i && line[j - 1] == '"'
        invariant
            i <= j <= line@.len(),
            trim_quotes_end(start) == trim_quotes_end(line@.subrange(i as int, j as int)),
        decreases j,
    {
        proof {
            assert(line@.subrange(i as int, j as int).drop_last() =~= line@.subrange(i as int, j - 1));
        }
        j = j - 1;
    }
    let mut r: Vec<char> = Vec::new();
    let mut k: usize = i;
    while k < j
        invariant
            i <= k <= j <= line@.len(),
            r@ == line@.subrange(i as int, k as int),
        decreases j - k,
    {
        r.push(line[k]);
        proof {
            assert(r@ =~= line@.subrange(i as int, k + 1));
        }
        k = k + 1;
    }
    r
}

fn is_arch_word(w: &Vec<char>) -> (r: bool)
    ensures
        r == (w@ == "arch"@),
{
    let a = chars_of("arch");
    proof {
        reveal_strlit("arch");
    }
    if w.len() != 4 {
        return false;
    }
    let r = w[0] == a[0] && w[1] == a[1] && w[2] == a[2] && w[3] == a[3];
    proof {
        if r {
            assert(w@ =~= a@);
        }
    }
    r
}

proof fn lemma_id_keys_disjoint(l: Seq<char>)
    ensures
        !(has_prefix(l, "ID="@) && has_prefix(l, "ID_LIKE="@)),
{
    reveal_strlit("ID=");
    reveal_strlit("ID_LIKE=");
    if has_prefix(l, "ID="@) && has_prefix(l, "ID_LIKE="@) {
        assert(l.take(3)[2] == l[2]);
        assert(l.take(8)[2] == l[2]);
    }
}

/// Whether the `os-release` text (none when the file could not be read)
/// describes an Arch-based system: its `ID` is `arch`, or `arch` is one of
/// the words of its `ID_LIKE`.
pub fn is_arch_based(release: Option<&str>) -> (r: bool)
    ensures
        r == match release {
            Some(t) => arch_based(t@),
            None => false,
        },
{
    let text = match release {
        Some(t) => t,
        None => return false,
    };
    let c = chars_of(text);
    let ls = lines_chars(&c);
    let id_key = chars_of("ID=");
    let like_key = chars_of("ID_LIKE=");
    proof {
        reveal_strlit("ID=");
        reveal_strlit("ID_LIKE=");
    }
    let mut id: Vec<char> = Vec::new();
    let mut like: Vec<Vec<char>> = Vec::new();
    let mut i: usize = 0;
    while i < ls.len()
        invariant
            i <= ls@.len(),
            views(ls@) == lines(text@),
            id_key@ == "ID="@,
            like_key@ == "ID_LIKE="@,
            id_key@.len() == 3,
            like_key@.len() == 8,
            id@ == os_id(views(ls@).take(i as int)),
            views(like@) == os_id_like(views(ls@).take(i as int)),
        decreases ls.len() - i,
    {
        proof {
            assert(views(ls@).take(i + 1).drop_last() =~= views(ls@).take(i as int));
            assert(views(ls@).take(i + 1).last() == ls@[i as int]@);
        }
        if starts_with(&ls[i], &id_key) {
            id = unquoted_after(&ls[i], 3);
            proof {
                lemma_id_keys_disjoint(ls@[i as int]@);
            }
        } else if starts_with(&ls[i], &like_key) {
            let v = unquoted_after(&ls[i], 8);
            like = split_whitespace_chars(&v);
        }
        i = i + 1;
    }
    proof {
        assert(views(ls@).take(ls@.len() as int) =~= views(ls@));
    }
    if is_arch_word(&id) {
        return true;
    }
    let mut k: usize = 0;
    while k < like.len()
        invariant
            k <= like@.len(),
            release == Some(text),
            arch_based(text@) == (id@ == "arch"@ || views(like@).contains("arch"@)),
            forall|m: int| 0 <= m < k ==> views(like@)[m] != "arch"@,
        decreases like.len() - k,
    {
        if is_arch_word(&like[k]) {
            proof {
                assert(views(like@)[k as int] == "arch"@);
                assert(views(like@).contains("arch"@));
            }
            return true;
        }
        k = k + 1;
    }
    proof {
        if views(like@).contains("arch"@) {
            let m = choose|m: int| 0 <= m < views(like@).len() && views(like@)[m] == "arch"@;
            assert(views(like@)[m] != "arch"@);
        }
    }
    false
}

} // verus!
